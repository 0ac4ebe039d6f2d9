//! Confirmed-Removal Ledger: the append-only record of removals that passed
//! every applicable verification stage, each rendered as a directly
//! replayable shell invocation.

use vstd::prelude::*;
use crate::groups::DependencyGroup;
use crate::groups::spec_extra_flag;
use crate::groups::spec_label;

verus! {

/// One confirmed-safe removal.
#[derive(Debug)]
pub struct LedgerEntry {
    pub module: String,
    pub name: String,
    pub group: DependencyGroup,
    pub replay: String,
}

/// The mathematical model of a ledger entry.
pub struct LedgerEntryModel {
    pub module: Seq<char>,
    pub name: Seq<char>,
    pub group: DependencyGroup,
    pub replay: Seq<char>,
}

impl View for LedgerEntry {
    type V = LedgerEntryModel;

    open spec fn view(&self) -> LedgerEntryModel {
        LedgerEntryModel {
            module: self.module@,
            name: self.name@,
            group: self.group,
            replay: self.replay@,
        }
    }
}

pub open spec fn ledger_view(v: Seq<LedgerEntry>) -> Seq<LedgerEntryModel> {
    v.map_values(|e: LedgerEntry| e@)
}

/// The removal tool's group flag as rendered text: empty for the normal group.
pub open spec fn spec_flag_or_empty(g: DependencyGroup) -> Seq<char> {
    match spec_extra_flag(g) {
        Some(f) => f,
        None => Seq::<char>::empty(),
    }
}

/// The replay text of one confirmed removal: a comment naming the manifest,
/// the dependency and its group, then the shell command that changes into the
/// module directory and invokes the removal tool with the group flag.
pub open spec fn spec_replay(module: Seq<char>, name: Seq<char>, g: DependencyGroup) -> Seq<
    char,
> {
    "\n# "@ + module + "/Cargo.toml "@ + name + " "@ + spec_label(g) + "\n(cd "@ + module
        + " && cargo rm "@ + spec_flag_or_empty(g) + " "@ + name + ")"@
}

/// Renders the replay text of one confirmed removal.
pub fn render_replay(module: &String, name: &String, group: DependencyGroup) -> (r: String)
    ensures
        r@ == spec_replay(module@, name@, group),
{
    let mut out = String::new();
    out.append("\n# ");
    out.append(module.as_str());
    out.append("/Cargo.toml ");
    out.append(name.as_str());
    out.append(" ");
    out.append(group.label());
    out.append("\n(cd ");
    out.append(module.as_str());
    out.append(" && cargo rm ");
    match group.extra_flag() {
        Some(f) => out.append(f),
        None => (),
    }
    out.append(" ");
    out.append(name.as_str());
    out.append(")");
    proof {
        assert(out@ =~= spec_replay(module@, name@, group));
    }
    out
}

/// The whole output artifact: the entries' replay texts, in confirmation
/// order.
pub open spec fn spec_concat_replays(entries: Seq<LedgerEntryModel>) -> Seq<char>
    decreases entries.len(),
{
    if entries.len() == 0 {
        Seq::<char>::empty()
    } else {
        spec_concat_replays(entries.drop_last()) + entries.last().replay
    }
}

/// Renders the session's whole artifact from the ledger.
pub fn render_all(entries: &Vec<LedgerEntry>) -> (r: String)
    ensures
        r@ == spec_concat_replays(ledger_view(entries@)),
{
    let ghost model = ledger_view(entries@);
    let mut out = String::new();
    let mut i: usize = 0;
    while i < entries.len()
        invariant
            i <= entries.len(),
            model == ledger_view(entries@),
            out@ == spec_concat_replays(model.take(i as int)),
        decreases entries.len() - i,
    {
        out.append(entries[i].replay.as_str());
        proof {
            assert(model.take(i + 1 as int).drop_last() =~= model.take(i as int));
            assert(model.take(i + 1 as int).last() == model[i as int]);
        }
        i += 1;
    }
    proof {
        assert(model.take(entries@.len() as int) =~= model);
    }
    out
}

} // verus!
