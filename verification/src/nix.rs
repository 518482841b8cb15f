//! Reading failed Nix builds for native CUDA link errors.
use vstd::prelude::*;
use crate::text::{
    chars_of, eq_str, is_prefix, lines, lines_str, non_empty, split, split_chars, split_once,
    split_once_str, starts_with_str, string_of, views, Sep,
};

verus! {

/// The CUDA libraries a native extension links against.
pub open spec fn cuda_link_library(library: Seq<char>) -> bool {
    is_prefix("cuda"@, library) || library == "cublas"@ || library == "cublasLt"@ || library
        == "cudart"@ || library == "cudart_static"@ || library == "cudnn"@ || library == "cufft"@
        || library == "cufftw"@ || library == "cufile"@ || library == "cupti"@ || library
        == "curand"@ || library == "cusolver"@ || library == "cusolverMg"@ || library
        == "cusparse"@ || library == "cusparseLt"@ || library == "nccl"@ || library == "nvblas"@
        || library == "nvJitLink"@ || library == "nvrtc"@ || library == "nvrtc-builtins"@
        || library == "nvToolsExt"@ || library == "nvtx"@
}

pub fn is_cuda_link_library(library: &str) -> (r: bool)
    ensures
        r == cuda_link_library(library@),
{
    let v = chars_of(library);
    starts_with_str(&v, "cuda") || eq_str(&v, "cublas") || eq_str(&v, "cublasLt") || eq_str(
        &v,
        "cudart",
    ) || eq_str(&v, "cudart_static") || eq_str(&v, "cudnn") || eq_str(&v, "cufft") || eq_str(
        &v,
        "cufftw",
    ) || eq_str(&v, "cufile") || eq_str(&v, "cupti") || eq_str(&v, "curand") || eq_str(
        &v,
        "cusolver",
    ) || eq_str(&v, "cusolverMg") || eq_str(&v, "cusparse") || eq_str(&v, "cusparseLt") || eq_str(
        &v,
        "nccl",
    ) || eq_str(&v, "nvblas") || eq_str(&v, "nvJitLink") || eq_str(&v, "nvrtc") || eq_str(
        &v,
        "nvrtc-builtins",
    ) || eq_str(&v, "nvToolsExt") || eq_str(&v, "nvtx")
}

/// The library a `cannot find -lNAME` line names: the first word after it.
pub open spec fn linked_library(line: Seq<char>) -> Option<Seq<char>> {
    match split_once(line, "cannot find -l"@) {
        Some((_, rest)) => {
            let words = non_empty(split(rest, Sep::Punct));
            if words.len() > 0 {
                Some(words[0])
            } else {
                None
            }
        },
        None => None,
    }
}

/// The first CUDA library the linker could not find.
pub open spec fn first_missing_cuda_library(ls: Seq<Seq<char>>) -> Option<Seq<char>>
    decreases ls.len(),
{
    if ls.len() == 0 {
        None
    } else if linked_library(ls[0]) is Some && cuda_link_library(linked_library(ls[0])->0) {
        linked_library(ls[0])
    } else {
        first_missing_cuda_library(ls.skip(1))
    }
}

pub fn missing_native_cuda_link_library(text: &str) -> (r: Option<String>)
    ensures
        match r {
            Some(name) => first_missing_cuda_library(lines(text@)) == Some(name@),
            None => first_missing_cuda_library(lines(text@)) is None,
        },
{
    let ls = lines_str(text);
    let ghost lv = views(ls@);
    let mut i: usize = 0;
    assert(lv.skip(0) == lv);
    while i < ls.len()
        invariant
            i <= ls.len(),
            lv == views(ls@),
            lv == lines(text@),
            first_missing_cuda_library(lv) == first_missing_cuda_library(lv.skip(i as int)),
        decreases ls.len() - i,
    {
        assert(lv.skip(i as int)[0] == ls@[i as int]@);
        assert(lv.skip(i as int).skip(1) == lv.skip(i + 1));
        match split_once_str(&ls[i], "cannot find -l") {
            Some((_, rest)) => {
                let words = crate::text::keep_non_empty(split_chars(&rest, Sep::Punct));
                if words.len() > 0 {
                    let name = string_of(&words[0]);
                    assert(views(words@)[0] == words@[0]@);
                    if is_cuda_link_library(name.as_str()) {
                        return Some(name);
                    }
                }
            },
            None => {},
        }
        i = i + 1;
    }
    None
}

/// The hints about a native CUDA link failure in a build's output.
pub open spec fn cuda_link_hint_texts(text: Seq<char>) -> Seq<Seq<char>> {
    match first_missing_cuda_library(lines(text)) {
        Some(library) => seq![
            "native CUDA extension link failed while resolving `-l"@ + library
                + "`; Nix owns the CUDA compiler, headers, and link surface"@,
            "uv owns Python packages and nvidia-* CUDA runtime wheels such as cuBLAS, cuDNN, and NCCL."@,
            "run `robo check --deep` to validate the cuda-toolkit build surface before changing project dependencies."@,
        ],
        None => Seq::empty(),
    }
}

pub fn native_cuda_link_failure_hints(text: &str) -> (r: Vec<String>)
    ensures
        crate::text::strs(r@) == cuda_link_hint_texts(text@),
{
    let mut out: Vec<String> = Vec::new();
    match missing_native_cuda_link_library(text) {
        Some(library) => {
            out.push(
                crate::text::concat3(
                    "native CUDA extension link failed while resolving `-l",
                    library.as_str(),
                    "`; Nix owns the CUDA compiler, headers, and link surface",
                ),
            );
            out.push(
                "uv owns Python packages and nvidia-* CUDA runtime wheels such as cuBLAS, cuDNN, and NCCL.".to_owned(),
            );
            out.push(
                "run `robo check --deep` to validate the cuda-toolkit build surface before changing project dependencies.".to_owned(),
            );
        },
        None => {},
    }
    assert(crate::text::strs(out@) =~= cuda_link_hint_texts(text@));
    out
}

/// A command's output as one text: its trimmed standard output, then its
/// trimmed standard error on a line of its own (when it wrote any error
/// output); when that is empty, the exit status.
pub open spec fn combined_text(stdout: Seq<char>, has_stderr: bool, stderr: Seq<char>, status: Seq<char>) -> Seq<char> {
    let out = crate::text::trim(stdout, crate::text::Sep::Whitespace);
    let text = if has_stderr {
        if out.len() > 0 {
            out + "\n"@ + crate::text::trim(stderr, crate::text::Sep::Whitespace)
        } else {
            out + crate::text::trim(stderr, crate::text::Sep::Whitespace)
        }
    } else {
        out
    };
    if text.len() == 0 {
        "command exited with "@ + status
    } else {
        text
    }
}

/// The text of a finished command's output; `status` is its exit status as
/// displayed.
pub fn combined_output(stdout: &[u8], stderr: &[u8], status: &str) -> (r: String)
    ensures
        r@ == combined_text(
            crate::text::lossy_decoded(stdout@),
            stderr@.len() > 0,
            crate::text::lossy_decoded(stderr@),
            status@,
        ),
{
    let out = crate::text::lossy_utf8(stdout);
    let mut text = crate::text::trim_chars(&crate::text::chars_of(out.as_str()), crate::text::Sep::Whitespace);
    if stderr.len() > 0 {
        if text.len() > 0 {
            text.push('\n');
            assert(text@ =~= crate::text::trim(out@, crate::text::Sep::Whitespace) + "\n"@) by {
                reveal_strlit("\n");
            }
        }
        let err = crate::text::lossy_utf8(stderr);
        let e = crate::text::trim_chars(&crate::text::chars_of(err.as_str()), crate::text::Sep::Whitespace);
        crate::text::append_chars(&mut text, &e);
    }
    if text.len() == 0 {
        crate::text::concat("command exited with ", status)
    } else {
        crate::text::string_of(&text)
    }
}

} // verus!
