//! `robo contract`: the resolved runtime contract, as printed.
use vstd::prelude::*;
use crate::python::quoted;
use crate::text::{concat, concat3, lines, opt_str, strip_prefix, strs, trim, Sep};
use crate::ui::{label, Config, LabelKind};
use crate::why::{why_view, Why, WhyEntry};

verus! {

/// The Nix system a machine builds for; an unknown one is named
/// `arch-os`.
pub fn nix_system(arch: &str, os: &str) -> (r: String)
    ensures
        r@ == (if arch@ == "x86_64"@ && os@ == "linux"@ {
            "x86_64-linux"@
        } else if arch@ == "aarch64"@ && os@ == "linux"@ {
            "aarch64-linux"@
        } else if arch@ == "x86_64"@ && os@ == "macos"@ {
            "x86_64-darwin"@
        } else if arch@ == "aarch64"@ && os@ == "macos"@ {
            "aarch64-darwin"@
        } else {
            arch@ + "-"@ + os@
        }),
{
    let x86 = crate::text::str_eq(arch, "x86_64");
    let arm = crate::text::str_eq(arch, "aarch64");
    let linux = crate::text::str_eq(os, "linux");
    let mac = crate::text::str_eq(os, "macos");
    if x86 && linux {
        "x86_64-linux".to_string()
    } else if arm && linux {
        "aarch64-linux".to_string()
    } else if x86 && mac {
        "x86_64-darwin".to_string()
    } else if arm && mac {
        "aarch64-darwin".to_string()
    } else {
        concat3(arch, "-", os)
    }
}

/// The name of the runtime's default derivation, from what
/// `nix eval --raw` printed: its text trimmed, when it succeeded and the
/// name is not empty.
pub open spec fn derivation_name(succeeded: bool, stdout: Seq<u8>) -> Option<Seq<char>> {
    if !succeeded {
        None
    } else {
        let name = trim(crate::text::lossy_decoded(stdout), Sep::Whitespace);
        if name.len() == 0 {
            None
        } else {
            Some(name)
        }
    }
}

pub fn default_derivation_name(succeeded: bool, stdout: &[u8]) -> (r: Option<String>)
    ensures
        opt_str(r) == derivation_name(succeeded, stdout@),
{
    if !succeeded {
        return None;
    }
    let text = crate::text::lossy_utf8(stdout);
    let name = crate::text::trim_ws(&crate::text::chars_of(text.as_str()));
    if name.len() == 0 {
        None
    } else {
        Some(crate::text::string_of(&name))
    }
}

/// The robo-nix source a flake pins: the quoted value of its first
/// `inputs.robo-nix.url` line that has one.
pub open spec fn flake_source(ls: Seq<Seq<char>>) -> Option<Seq<char>>
    decreases ls.len(),
{
    if ls.len() == 0 {
        None
    } else {
        let found = match strip_prefix(trim(ls[0], Sep::Whitespace), "inputs.robo-nix.url"@) {
            Some(rest) => quoted(rest),
            None => None,
        };
        match found {
            Some(v) => Some(v),
            None => flake_source(ls.skip(1)),
        }
    }
}

pub fn flake_robo_nix_source(flake: &str) -> (r: Option<String>)
    ensures
        opt_str(r) == flake_source(lines(flake@)),
{
    let ls = crate::text::lines_str(flake);
    let ghost lv = crate::text::views(ls@);
    let mut i: usize = 0;
    assert(lv.skip(0) =~= lv);
    while i < ls.len()
        invariant
            i <= ls.len(),
            lv == crate::text::views(ls@),
            lv == lines(flake@),
            flake_source(lv) == flake_source(lv.skip(i as int)),
        decreases ls.len() - i,
    {
        assert(lv.skip(i as int)[0] == ls@[i as int]@);
        assert(lv.skip(i as int).skip(1) =~= lv.skip(i + 1));
        let t = crate::text::trim_ws(&ls[i]);
        match crate::text::strip_prefix_str(&t, "inputs.robo-nix.url") {
            Some(rest) => {
                match crate::python::quoted_value(crate::text::string_of(&rest).as_str()) {
                    Some(v) => {
                        return Some(v);
                    },
                    None => {},
                }
            },
            None => {},
        }
        i = i + 1;
    }
    None
}

/// The resolved runtime contract.
pub struct RuntimeContract {
    pub env_name: String,
    pub schema_version: Option<String>,
    pub python_version: String,
    pub cuda_wheel_version: Option<String>,
    pub system: String,
    pub workspace_root: String,
    pub default_derivation: Option<String>,
    pub flake_lock_present: bool,
    pub source: Option<String>,
    pub components: Vec<WhyEntry>,
    pub required_directories: Vec<WhyEntry>,
    pub required_files: Vec<WhyEntry>,
    pub bootstrap_scripts: Vec<WhyEntry>,
}

pub open spec fn opt_field(name: Seq<char>, value: Option<String>) -> Seq<Seq<char>> {
    match value {
        Some(v) => seq![field(name, v@)],
        None => Seq::empty(),
    }
}

/// `name=value`.
pub open spec fn field(name: Seq<char>, value: Seq<char>) -> Seq<char> {
    name + "="@ + value
}

pub open spec fn component_field(e: Why) -> Seq<char> {
    field("component"@, e.0 + " source="@ + e.1 + " reason="@ + e.2)
}

/// The contract's fields as `name=value` texts, in printing order.
pub open spec fn contract_fields(c: RuntimeContract) -> Seq<Seq<char>> {
    seq![field("env"@, c.env_name@)] + opt_field("schemaVersion"@, c.schema_version) + opt_field(
        "cudaWheelVersion"@,
        c.cuda_wheel_version,
    ) + seq![field("python"@, c.python_version@), field("system"@, c.system@), field("workspace"@, c.workspace_root@)]
        + opt_field("derivation"@, c.default_derivation) + seq![
        field("flakeLockPresent"@, if c.flake_lock_present {
            "true"@
        } else {
            "false"@
        }),
    ] + opt_field("source"@, c.source) + why_view(c.components@).map_values(|e: Why| component_field(e))
        + why_view(c.required_directories@).map_values(|e: Why| field("requiredDirectory"@, e.0))
        + why_view(c.required_files@).map_values(|e: Why| field("requiredFile"@, e.0)) + why_view(
        c.bootstrap_scripts@,
    ).map_values(|e: Why| field("bootstrapScript"@, e.0))
}

fn push_field(out: &mut Vec<String>, name: &str, value: &str)
    ensures
        strs(final(out)@) == strs(old(out)@).push(field(name@, value@)),
{
    let ghost prev = out@;
    out.push(concat3(name, "=", value));
    proof {
        crate::text::lemma_strs_push(prev, out@.last());
    }
}

fn push_opt_field(out: &mut Vec<String>, name: &str, value: &Option<String>)
    ensures
        strs(final(out)@) == strs(old(out)@) + opt_field(name@, *value),
{
    match value {
        Some(v) => {
            push_field(out, name, v.as_str());
            assert(strs(out@) =~= strs(old(out)@) + opt_field(name@, *value));
        },
        None => {
            assert(strs(out@) =~= strs(old(out)@) + opt_field(name@, *value));
        },
    }
}

fn push_component_entries(out: &mut Vec<String>, entries: &Vec<WhyEntry>)
    ensures
        strs(final(out)@) == strs(old(out)@) + why_view(entries@).map_values(|e: Why| component_field(e)),
{
    let ghost start = strs(out@);
    let ghost ev = why_view(entries@);
    let mut i: usize = 0;
    while i < entries.len()
        invariant
            i <= entries.len(),
            ev == why_view(entries@),
            strs(out@) == start + ev.take(i as int).map_values(|e: Why| component_field(e)),
        decreases entries.len() - i,
    {
        let e = &entries[i];
        assert(ev[i as int] == e@);
        let value = crate::text::concat4(e.name.as_str(), " source=", e.source.as_str(), concat(" reason=", e.reason.as_str()).as_str());
        assert(value@ =~= e@.0 + " source="@ + e@.1 + " reason="@ + e@.2);
        push_field(out, "component", value.as_str());
        assert(ev.take(i + 1).map_values(|e: Why| component_field(e)) =~= ev.take(i as int).map_values(|e: Why| component_field(e)).push(component_field(ev[i as int])));
        assert(strs(out@) =~= start + ev.take(i + 1).map_values(|e: Why| component_field(e)));
        i = i + 1;
    }
    assert(ev.take(entries.len() as int) == ev);
}

fn push_name_entries(out: &mut Vec<String>, name: &str, entries: &Vec<WhyEntry>)
    ensures
        strs(final(out)@) == strs(old(out)@) + why_view(entries@).map_values(|e: Why| field(name@, e.0)),
{
    let ghost start = strs(out@);
    let ghost ev = why_view(entries@);
    let mut i: usize = 0;
    while i < entries.len()
        invariant
            i <= entries.len(),
            ev == why_view(entries@),
            strs(out@) == start + ev.take(i as int).map_values(|e: Why| field(name@, e.0)),
        decreases entries.len() - i,
    {
        let e = &entries[i];
        assert(ev[i as int] == e@);
        push_field(out, name, e.name.as_str());
        assert(ev.take(i + 1).map_values(|e: Why| field(name@, e.0)) =~= ev.take(i as int).map_values(|e: Why| field(name@, e.0)).push(field(name@, ev[i as int].0)));
        assert(strs(out@) =~= start + ev.take(i + 1).map_values(|e: Why| field(name@, e.0)));
        i = i + 1;
    }
    assert(ev.take(entries.len() as int) == ev);
}

/// The contract as `name=value` fields (each printed after `contract:`).
pub fn contract_field_values(c: &RuntimeContract) -> (r: Vec<String>)
    ensures
        strs(r@) == contract_fields(*c),
{
    let mut out: Vec<String> = Vec::new();
    push_field(&mut out, "env", c.env_name.as_str());
    push_opt_field(&mut out, "schemaVersion", &c.schema_version);
    push_opt_field(&mut out, "cudaWheelVersion", &c.cuda_wheel_version);
    push_field(&mut out, "python", c.python_version.as_str());
    push_field(&mut out, "system", c.system.as_str());
    push_field(&mut out, "workspace", c.workspace_root.as_str());
    push_opt_field(&mut out, "derivation", &c.default_derivation);
    push_field(&mut out, "flakeLockPresent", if c.flake_lock_present {
        "true"
    } else {
        "false"
    });
    push_opt_field(&mut out, "source", &c.source);
    push_component_entries(&mut out, &c.components);
    push_name_entries(&mut out, "requiredDirectory", &c.required_directories);
    push_name_entries(&mut out, "requiredFile", &c.required_files);
    push_name_entries(&mut out, "bootstrapScript", &c.bootstrap_scripts);
    assert(strs(out@) =~= contract_fields(*c));
    out
}

/// One printed contract line: `contract:` and the field.
pub fn contract_field(config: Config, message: &str) -> (r: String)
    ensures
        crate::ui::renders(config, r@, "contract: "@ + message@),
{
    proof {
        reveal_strlit("contract: ");
        reveal_strlit("contract:");
        reveal_strlit(" ");
    }
    let rest = crate::text::concat(" ", message);
    let r = crate::ui::glue_text(config, label(config, "contract:", LabelKind::Status).as_str(), Ghost("contract:"@), rest.as_str());
    assert("contract:"@ + rest@ =~= "contract: "@ + message@);
    r
}

} // verus!
