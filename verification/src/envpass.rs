//! Environment preservation: the fixed, ordered allow-list of host
//! variables that may cross into the container, and the filter that keeps
//! exactly the allow-listed names present in the host environment.

use vstd::prelude::*;
use crate::errors::LaunchError;

verus! {

/// The allow-list, in its fixed forwarding order.
pub open spec fn spec_preserved_env_names() -> Seq<Seq<char>> {
    seq![
        "COLORTERM"@,
        "DBUS_SESSION_BUS_ADDRESS"@,
        "DESKTOP_SESSION"@,
        "DISPLAY"@,
        "LANG"@,
        "SHELL"@,
        "SSH_AUTH_SOCK"@,
        "TERM"@,
        "VTE_VERSION"@,
        "XDG_CURRENT_DESKTOP"@,
        "XDG_DATA_DIRS"@,
        "XDG_MENU_PREFIX"@,
        "XDG_RUNTIME_DIR"@,
        "XDG_SEAT"@,
        "XDG_SESSION_DESKTOP"@,
        "XDG_SESSION_ID"@,
        "XDG_SESSION_TYPE"@,
        "XDG_VTNR"@,
    ]
}

/// The allow-list as values: the only names whose lookups are consulted.
pub fn preserved_env_names() -> (r: Vec<&'static str>)
    ensures
        r.deep_view() == spec_preserved_env_names(),
{
    let mut v: Vec<&'static str> = Vec::new();
    v.push("COLORTERM");
    v.push("DBUS_SESSION_BUS_ADDRESS");
    v.push("DESKTOP_SESSION");
    v.push("DISPLAY");
    v.push("LANG");
    v.push("SHELL");
    v.push("SSH_AUTH_SOCK");
    v.push("TERM");
    v.push("VTE_VERSION");
    v.push("XDG_CURRENT_DESKTOP");
    v.push("XDG_DATA_DIRS");
    v.push("XDG_MENU_PREFIX");
    v.push("XDG_RUNTIME_DIR");
    v.push("XDG_SEAT");
    v.push("XDG_SESSION_DESKTOP");
    v.push("XDG_SESSION_ID");
    v.push("XDG_SESSION_TYPE");
    v.push("XDG_VTNR");
    proof {
        assert(v.deep_view() =~= spec_preserved_env_names());
    }
    v
}

/// One lookup of an allow-listed name in the host environment.
pub enum EnvState {
    /// The variable is not set: skipped silently.
    Unset,
    /// The variable is set but its value is not valid text: fatal.
    NotText,
    /// The variable is set to this text: forwarded verbatim.
    Text(String),
}

/// Some lookup in the sequence found a value that is not valid text.
pub open spec fn has_bad(l: Seq<(String, EnvState)>) -> bool {
    exists|i: int| 0 <= i < l.len() && (#[trigger] l[i].1) is NotText
}

/// The name/value pairs the filter keeps: the `Text` entries, verbatim, in
/// lookup order.
pub open spec fn spec_collected(l: Seq<(String, EnvState)>) -> Seq<(Seq<char>, Seq<char>)>
    decreases l.len(),
{
    if l.len() == 0 {
        Seq::empty()
    } else {
        let rest = spec_collected(l.drop_last());
        match l.last().1 {
            EnvState::Text(v) => rest.push((l.last().0@, v@)),
            _ => rest,
        }
    }
}

/// Filters the looked-up allow-list: absent names are skipped silently, a
/// value that is not valid text fails fatally naming the first offending
/// variable, and every present text value is kept verbatim, in allow-list
/// order.
pub fn collect_preserved(lookups: Vec<(String, EnvState)>) -> (r: Result<
    Vec<(String, String)>,
    LaunchError,
>)
    ensures
        r is Ok <==> !has_bad(lookups@),
        r matches Ok(pairs) ==> pairs.deep_view() == spec_collected(lookups@),
        r matches Err(e) ==> (e matches LaunchError::EnvEncodingError(n) && exists|i: int|
            0 <= i < lookups@.len() && (#[trigger] lookups@[i].1) is NotText && n@
                == lookups@[i].0@ && (forall|j: int|
                0 <= j < i ==> !((#[trigger] lookups@[j].1) is NotText))),
{
    let mut pairs: Vec<(String, String)> = Vec::new();
    let mut i: usize = 0;
    while i < lookups.len()
        invariant
            i <= lookups@.len(),
            pairs.deep_view() =~= spec_collected(lookups@.take(i as int)),
            forall|j: int| 0 <= j < i ==> !((#[trigger] lookups@[j].1) is NotText),
        decreases lookups@.len() - i,
    {
        let ghost pre = pairs.deep_view();
        let entry = &lookups[i];
        match &entry.1 {
            EnvState::Unset => {},
            EnvState::NotText => {
                proof {
                    assert(lookups@[i as int].1 is NotText);
                }
                return Err(LaunchError::EnvEncodingError(entry.0.clone()));
            },
            EnvState::Text(v) => {
                pairs.push((entry.0.clone(), v.clone()));
            },
        }
        proof {
            assert(lookups@.take(i as int + 1).drop_last() =~= lookups@.take(i as int));
            assert(lookups@.take(i as int + 1).last() == lookups@[i as int]);
            match lookups@[i as int].1 {
                EnvState::Text(v) => {
                    assert(pairs.deep_view() =~= pre.push((lookups@[i as int].0@, v@)));
                },
                _ => {},
            }
        }
        i += 1;
    }
    proof {
        assert(lookups@.take(lookups@.len() as int) =~= lookups@);
    }
    Ok(pairs)
}

/// Demands a variable this launcher cannot run without (the runtime
/// directory used when staging the self-binary): an absent variable means
/// nothing can be staged, and a value that is not valid text is an
/// encoding error naming the variable.
pub fn getenv_required_utf8(name: &str, lookup: EnvState) -> (r: Result<String, LaunchError>)
    ensures
        lookup matches EnvState::Text(v) ==> (r matches Ok(s) && s == v),
        lookup is NotText ==> (r matches Err(LaunchError::EnvEncodingError(n)) && n@ == name@),
        lookup is Unset ==> (r matches Err(LaunchError::SelfPathResolutionError(n)) && n@
            == name@),
{
    match lookup {
        EnvState::Text(v) => Ok(v),
        EnvState::NotText => Err(LaunchError::EnvEncodingError(String::from_str(name))),
        EnvState::Unset => Err(LaunchError::SelfPathResolutionError(String::from_str(name))),
    }
}

/// Every kept pair takes its name from some lookup that held text.
pub proof fn lemma_collected_names_from_input(l: Seq<(String, EnvState)>)
    ensures
        forall|k: int|
            0 <= k < spec_collected(l).len() ==> exists|j: int|
                0 <= j < l.len() && (#[trigger] spec_collected(l)[k]).0 == l[j].0@ && l[j].1
                    is Text,
    decreases l.len(),
{
    if l.len() == 0 {
    } else {
        let pre = l.drop_last();
        lemma_collected_names_from_input(pre);
        assert forall|k: int| 0 <= k < spec_collected(l).len() implies exists|j: int|
            0 <= j < l.len() && (#[trigger] spec_collected(l)[k]).0 == l[j].0@ && l[j].1
                is Text by {
            if k < spec_collected(pre).len() {
                assert(spec_collected(l)[k] == spec_collected(pre)[k]);
                let j0 = choose|j: int|
                    0 <= j < pre.len() && spec_collected(pre)[k].0 == pre[j].0@ && pre[j].1
                        is Text;
                assert(l[j0] == pre[j0]);
                assert(0 <= j0 < l.len() && spec_collected(l)[k].0 == l[j0].0@ && l[j0].1
                    is Text);
            } else {
                let j1 = l.len() - 1;
                assert(0 <= j1 < l.len() && spec_collected(l)[k].0 == l[j1].0@ && l[j1].1
                    is Text);
            }
        }
    }
}

/// Law: for a lookup sequence with pairwise distinct names — as the
/// allow-list is — a name whose lookup found the variable absent appears in
/// no kept pair, so no forwarding entry is ever produced for it.
pub proof fn lemma_unset_name_not_forwarded(l: Seq<(String, EnvState)>, i: int)
    requires
        0 <= i < l.len(),
        l[i].1 is Unset,
        forall|a: int, b: int|
            0 <= a < b < l.len() ==> (#[trigger] l[a]).0@ != (#[trigger] l[b]).0@,
    ensures
        forall|k: int|
            0 <= k < spec_collected(l).len() ==> (#[trigger] spec_collected(l)[k]).0 != l[i].0@,
{
    lemma_collected_names_from_input(l);
    assert forall|k: int| 0 <= k < spec_collected(l).len() implies (#[trigger] spec_collected(
        l,
    )[k]).0 != l[i].0@ by {
        let j0 = choose|j: int|
            0 <= j < l.len() && spec_collected(l)[k].0 == l[j].0@ && l[j].1 is Text;
        assert(j0 != i);
        if j0 < i {
            assert(l[j0].0@ != l[i].0@);
        } else {
            assert(l[i].0@ != l[j0].0@);
        }
    }
}

} // verus!
