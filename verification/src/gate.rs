//! The version gate: a build must enable exactly one SDK version.

use crate::version::{all_versions, SdkVersion, VERSION_COUNT};
use vstd::prelude::*;
use vstd::string::*;

verus! {

/// The versions whose flag is set, oldest first. `flags` holds one flag for
/// each version, in the order of the set.
pub open spec fn enabled_versions(flags: Seq<bool>) -> Seq<SdkVersion> {
    all_versions().filter(|v: SdkVersion| flags[v.index_spec() as int])
}

/// A selector between double quotes.
pub open spec fn quoted_selector(version: SdkVersion) -> Seq<char> {
    "\""@ + version.selector_text() + "\""@
}

/// The quoted selectors of `versions`, separated by a comma and a space.
pub open spec fn selector_list(versions: Seq<SdkVersion>) -> Seq<char>
    decreases versions.len(),
{
    if versions.len() == 0 {
        Seq::empty()
    } else if versions.len() == 1 {
        quoted_selector(versions[0])
    } else {
        selector_list(versions.drop_last()) + ", "@ + quoted_selector(versions.last())
    }
}

/// The selector list between square brackets.
pub open spec fn bracketed_list(versions: Seq<SdkVersion>) -> Seq<char> {
    "["@ + selector_list(versions) + "]"@
}

/// How many of the flags are set.
pub open spec fn enabled_count(flags: Seq<bool>) -> nat
    decreases flags.len(),
{
    if flags.len() == 0 {
        0
    } else {
        enabled_count(flags.drop_last()) + if flags.last() {
            1nat
        } else {
            0nat
        }
    }
}

proof fn lemma_enabled_prefix(flags: Seq<bool>, n: int)
    requires
        flags.len() == VERSION_COUNT,
        0 <= n <= VERSION_COUNT,
    ensures
        all_versions().take(n).filter(|v: SdkVersion| flags[v.index_spec() as int]).len()
            == enabled_count(flags.take(n)),
    decreases n,
{
    reveal(Seq::filter);
    let pred = |v: SdkVersion| flags[v.index_spec() as int];
    if n == 0 {
        assert(all_versions().take(0) =~= Seq::<SdkVersion>::empty());
        assert(flags.take(0) =~= Seq::<bool>::empty());
    } else {
        lemma_enabled_prefix(flags, n - 1);
        assert(all_versions().take(n).drop_last() =~= all_versions().take(n - 1));
        assert(flags.take(n).drop_last() =~= flags.take(n - 1));
        assert(all_versions().take(n).last().index_spec() == n - 1);
        assert(flags.take(n).last() == flags[n - 1]);
    }
}

/// The list of enabled versions has one entry for each flag that is set, and
/// holds a version exactly when its flag is set.
pub proof fn lemma_enabled_versions(flags: Seq<bool>)
    requires
        flags.len() == VERSION_COUNT,
    ensures
        enabled_versions(flags).len() == enabled_count(flags),
        forall|v: SdkVersion| #[trigger]
            enabled_versions(flags).contains(v) <==> flags[v.index_spec() as int],
{
    let pred = |v: SdkVersion| flags[v.index_spec() as int];
    lemma_enabled_prefix(flags, VERSION_COUNT as int);
    assert(all_versions().take(VERSION_COUNT as int) =~= all_versions());
    assert(flags.take(VERSION_COUNT as int) =~= flags);
    assert forall|v: SdkVersion| #[trigger]
        enabled_versions(flags).contains(v) <==> flags[v.index_spec() as int] by {
        if enabled_versions(flags).contains(v) {
            let i = choose|i: int|
                0 <= i < enabled_versions(flags).len() && enabled_versions(flags)[i] == v;
            all_versions().lemma_filter_pred(pred, i);
        }
        if flags[v.index_spec() as int] {
            assert(all_versions()[v.index_spec() as int] == v);
            all_versions().lemma_filter_contains(pred, v.index_spec() as int);
        }
    }
}

/// Why a build configuration is refused.
#[derive(Debug)]
pub enum GateError {
    /// No version selector is enabled.
    NoVersion,
    /// Two or more version selectors are enabled; they are listed oldest
    /// first.
    MultipleVersions(Vec<SdkVersion>),
}

impl GateError {
    /// The text of the build failure.
    pub open spec fn message_text(self) -> Seq<char> {
        match self {
            GateError::NoVersion => {
                "nvidia-video-codec-sys: No SDK version feature enabled. Enable exactly one version feature out of "@
                    + bracketed_list(all_versions()) + ", e.g. `features = [\"v13_0\"]`."@
            },
            GateError::MultipleVersions(enabled) => {
                "nvidia-video-codec-sys: Multiple SDK version features enabled: "@
                    + bracketed_list(enabled@) + ". Enable exactly one version feature."@
            },
        }
    }
}

/// Every SDK version, oldest first.
pub fn version_list() -> (r: Vec<SdkVersion>)
    ensures
        r@ == all_versions(),
{
    let mut list: Vec<SdkVersion> = Vec::new();
    let mut i: usize = 0;
    while i < VERSION_COUNT
        invariant
            i <= VERSION_COUNT,
            list@ == all_versions().take(i as int),
        decreases VERSION_COUNT - i,
    {
        match SdkVersion::from_index(i) {
            Some(version) => {
                list.push(version);
            },
            None => {},
        }
        i = i + 1;
    }
    list
}

/// The versions that a build enabled: those whose flag is set, oldest first.
pub fn collect_enabled(flags: &[bool; VERSION_COUNT]) -> (r: Vec<SdkVersion>)
    ensures
        r@ == enabled_versions(flags@),
{
    let ghost pred = |v: SdkVersion| flags@[v.index_spec() as int];
    let mut enabled: Vec<SdkVersion> = Vec::new();
    let mut i: usize = 0;
    proof {
        reveal(Seq::filter);
        assert(all_versions().take(0) =~= Seq::<SdkVersion>::empty());
    }
    while i < VERSION_COUNT
        invariant
            i <= VERSION_COUNT,
            pred == |v: SdkVersion| flags@[v.index_spec() as int],
            enabled@ == all_versions().take(i as int).filter(pred),
        decreases VERSION_COUNT - i,
    {
        proof {
            reveal(Seq::filter);
            let next = all_versions().take(i + 1);
            assert(next.drop_last() =~= all_versions().take(i as int));
            assert(next.last() == all_versions()[i as int]);
        }
        match SdkVersion::from_index(i) {
            Some(version) => {
                if flags[i] {
                    enabled.push(version);
                }
            },
            None => {},
        }
        i = i + 1;
    }
    proof {
        assert(all_versions().take(VERSION_COUNT as int) =~= all_versions());
    }
    enabled
}

/// Renders the selectors of `versions` as a bracketed, quoted list, such as
/// `["v12_2", "v13_0"]`.
pub fn render_list(versions: &Vec<SdkVersion>) -> (r: String)
    ensures
        r@ == bracketed_list(versions@),
{
    let mut text = String::from_str("[");
    let mut i: usize = 0;
    while i < versions.len()
        invariant
            i <= versions.len(),
            text@ == "["@ + selector_list(versions@.take(i as int)),
        decreases versions.len() - i,
    {
        let ghost shorter = versions@.take(i as int);
        let ghost longer = versions@.take(i + 1);
        proof {
            assert(longer.drop_last() =~= shorter);
            assert(longer.last() == versions@[i as int]);
            assert(longer[0] == versions@[0]);
        }
        if i > 0 {
            text.append(", ");
        }
        text.append("\"");
        text.append(versions[i].selector());
        text.append("\"");
        proof {
            let item = quoted_selector(versions@[i as int]);
            if i == 0 {
                assert(selector_list(shorter) =~= Seq::<char>::empty());
                assert(text@ =~= "["@ + item);
            } else {
                assert(text@ =~= "["@ + (selector_list(shorter) + ", "@ + item));
            }
        }
        i = i + 1;
    }
    proof {
        assert(versions@.take(versions.len() as int) =~= versions@);
    }
    text.append("]");
    text
}

impl GateError {
    /// The text of the build failure. With no version enabled it names the
    /// closed set and asks for exactly one; with several enabled it lists
    /// them.
    pub fn message(&self) -> (r: String)
        ensures
            r@ == self.message_text(),
    {
        match self {
            GateError::NoVersion => {
                let all = version_list();
                let mut text = String::from_str(
                    "nvidia-video-codec-sys: No SDK version feature enabled. Enable exactly one version feature out of ",
                );
                text.append(render_list(&all).as_str());
                text.append(", e.g. `features = [\"v13_0\"]`.");
                text
            },
            GateError::MultipleVersions(enabled) => {
                let mut text = String::from_str(
                    "nvidia-video-codec-sys: Multiple SDK version features enabled: ",
                );
                text.append(render_list(enabled).as_str());
                text.append(". Enable exactly one version feature.");
                text
            },
        }
    }
}

/// Decides on the list of enabled versions: exactly one is accepted.
pub fn check_selection(enabled: Vec<SdkVersion>) -> (r: Result<SdkVersion, GateError>)
    ensures
        enabled@.len() == 1 ==> r == Ok::<SdkVersion, GateError>(enabled@[0]),
        enabled@.len() == 0 ==> r == Err::<SdkVersion, GateError>(GateError::NoVersion),
        enabled@.len() >= 2 ==> (r matches Err(GateError::MultipleVersions(listed)) && listed@
            == enabled@),
{
    if enabled.len() == 0 {
        Err(GateError::NoVersion)
    } else if enabled.len() == 1 {
        Ok(enabled[0])
    } else {
        Err(GateError::MultipleVersions(enabled))
    }
}

/// The version gate. `flags` holds, for each version of the closed set in
/// order, whether the build enabled its selector. The build is accepted
/// exactly when one flag is set, and that version is returned.
pub fn gate(flags: &[bool; VERSION_COUNT]) -> (r: Result<SdkVersion, GateError>)
    ensures
        match r {
            Ok(version) => enabled_count(flags@) == 1 && enabled_versions(flags@) == seq![version]
                && flags@[version.index_spec() as int],
            Err(GateError::NoVersion) => enabled_count(flags@) == 0,
            Err(GateError::MultipleVersions(listed)) => enabled_count(flags@) >= 2 && listed@
                == enabled_versions(flags@),
        },
{
    let enabled = collect_enabled(flags);
    proof {
        let pred = |v: SdkVersion| flags@[v.index_spec() as int];
        lemma_enabled_versions(flags@);
        if enabled@.len() == 1 {
            all_versions().lemma_filter_pred(pred, 0);
            assert(enabled@ =~= seq![enabled@[0]]);
        }
    }
    check_selection(enabled)
}

} // verus!
