//! The session's guarantees, stated and proved over the machine's invariant
//! and its transition relation.

use vstd::prelude::*;
use crate::ledger::LedgerEntryModel;
use crate::ledger::ledger_view;
use crate::ledger::spec_concat_replays;
use crate::manifest::names_view;
use crate::policy::spec_should_skip;
use crate::session::Action;
use crate::session::CandidateRecord;
use crate::session::Event;
use crate::session::Phase;
use crate::session::Resolution;
use crate::session::SessionState;
use crate::session::inv;
use crate::session::is_confirmed;
use crate::session::ledger_of;
use crate::session::model_of;
use crate::session::mutation_open;
use crate::session::policy_skips;
use crate::session::record_for;
use crate::session::spec_step;

verus! {

/// Rollback idempotence, record half: every candidate whose removal was
/// attempted — whatever the verification outcome, success included — has the
/// reset of its module's tree acknowledged in its record; the machine writes
/// no attempted record without it.
pub proof fn lemma_rollback_after_every_attempt(s: SessionState)
    requires
        inv(s),
    ensures
        forall|i: int|
            0 <= i < s.log@.len() ==> ((#[trigger] s.log@[i]).resolution matches
                Resolution::Attempted { reset_done, .. } ==> reset_done),
{
}

/// Rollback idempotence, transition half: while a candidate's mutation may be
/// open, the machine stays with that candidate — same position, no new record
/// — until the tree reset is acknowledged; the acknowledgement alone closes
/// the candidate, writing its record with the reset noted.
pub proof fn lemma_reset_closes_every_mutation(
    pre: SessionState,
    e: Event,
    post: SessionState,
    a: Action,
)
    requires
        inv(pre),
        spec_step(pre, e, post, a),
        mutation_open(pre),
    ensures
        !(e is ResetDone) ==> mutation_open(post) && post.entry_idx == pre.entry_idx
            && post.log@ == pre.log@ && post.ledger == pre.ledger,
        (e is ResetDone) ==> pre.phase == Phase::AwaitReset && post.log@.len() == pre.log@.len()
            + 1 && (post.log@.last().resolution matches Resolution::Attempted {
            reset_done: true,
            ..
        }),
{
}

/// No removal without verification: the ledger holds exactly the entries it
/// owes — one per logged candidate whose mutation succeeded and whose every
/// applicable verification stage succeeded, in confirmation order, and no
/// others.
pub proof fn lemma_no_removal_without_verification(s: SessionState)
    requires
        inv(s),
    ensures
        ledger_view(s.ledger@) == ledger_of(s.log@),
        forall|x: LedgerEntryModel|
            #[trigger] ledger_of(s.log@).contains(x) <==> (exists|i: int|
                0 <= i < s.log@.len() && is_confirmed(#[trigger] s.log@[i]) && model_of(s.log@[i])
                    == x),
{
    lemma_ledger_membership(s.log@);
}

proof fn lemma_ledger_membership(log: Seq<CandidateRecord>)
    ensures
        forall|x: LedgerEntryModel|
            #[trigger] ledger_of(log).contains(x) <==> (exists|i: int|
                0 <= i < log.len() && is_confirmed(#[trigger] log[i]) && model_of(log[i]) == x),
    decreases log.len(),
{
    if log.len() == 0 {
        assert forall|x: LedgerEntryModel| !(#[trigger] ledger_of(log).contains(x)) by {
            assert(ledger_of(log).len() == 0);
        }
    } else {
        let prefix = log.drop_last();
        let last = log.last();
        lemma_ledger_membership(prefix);
        let lp = ledger_of(prefix);
        assert forall|x: LedgerEntryModel| #[trigger]
            ledger_of(log).contains(x) implies (exists|i: int|
            0 <= i < log.len() && is_confirmed(#[trigger] log[i]) && model_of(log[i]) == x) by {
            let j = choose|j: int| 0 <= j < ledger_of(log).len() && ledger_of(log)[j] == x;
            if is_confirmed(last) {
                if j < lp.len() {
                    assert(lp[j] == x);
                    assert(lp.contains(x));
                    let i = choose|i: int|
                        0 <= i < prefix.len() && is_confirmed(#[trigger] prefix[i]) && model_of(
                            prefix[i],
                        ) == x;
                    assert(log[i] == prefix[i]);
                    assert(is_confirmed(log[i]) && model_of(log[i]) == x);
                } else {
                    assert(x == model_of(last));
                    assert(log[log.len() - 1] == last);
                    assert(is_confirmed(log[log.len() - 1]) && model_of(log[log.len() - 1]) == x);
                }
            } else {
                assert(lp.contains(x));
                let i = choose|i: int|
                    0 <= i < prefix.len() && is_confirmed(#[trigger] prefix[i]) && model_of(
                        prefix[i],
                    ) == x;
                assert(log[i] == prefix[i]);
                assert(is_confirmed(log[i]) && model_of(log[i]) == x);
            }
        }
        assert forall|x: LedgerEntryModel|
            (exists|i: int|
                0 <= i < log.len() && is_confirmed(#[trigger] log[i]) && model_of(log[i])
                    == x) implies #[trigger] ledger_of(log).contains(x) by {
            let i = choose|i: int|
                0 <= i < log.len() && is_confirmed(#[trigger] log[i]) && model_of(log[i]) == x;
            if i < log.len() - 1 {
                assert(prefix[i] == log[i]);
                assert(is_confirmed(prefix[i]) && model_of(prefix[i]) == x);
                assert(lp.contains(x));
                let j = choose|j: int| 0 <= j < lp.len() && lp[j] == x;
                if is_confirmed(last) {
                    assert(ledger_of(log) == lp.push(model_of(last)));
                    assert(ledger_of(log)[j] == x);
                } else {
                    assert(ledger_of(log) == lp);
                }
                assert(ledger_of(log).contains(x));
            } else {
                assert(log[i] == last);
                assert(is_confirmed(last) && model_of(last) == x);
                assert(ledger_of(log) == lp.push(model_of(last)));
                assert(ledger_of(log)[lp.len() as int] == x);
                assert(ledger_of(log).contains(x));
            }
        }
    }
}

/// Policy exclusivity, record half: a logged candidate was resolved as
/// policy-skipped exactly when its name is in the global ignore set, or it is
/// flagged optional, or its name is in its pass's module-local ignore list —
/// so no such candidate was ever attempted.
pub proof fn lemma_policy_exclusivity(s: SessionState)
    requires
        inv(s),
    ensures
        forall|i: int|
            0 <= i < s.log@.len() ==> (spec_should_skip(
                names_view(s.policy.global@),
                (#[trigger] s.log@[i]).local,
                s.log@[i].name,
                s.log@[i].optional,
            ) <==> s.log@[i].resolution is SkippedPolicy),
{
}

/// Policy exclusivity, transition half: the machine asks for a mutation only
/// from the oracle-waiting phase, only for a candidate the policy cleared,
/// and only on a negative usage verdict.
pub proof fn lemma_mutation_only_when_cleared(
    pre: SessionState,
    e: Event,
    post: SessionState,
    a: Action,
)
    requires
        inv(pre),
        spec_step(pre, e, post, a),
    ensures
        (a is RunRemove) ==> (pre.phase == Phase::AwaitOracle && !policy_skips(pre) && (e matches
        Event::OracleDone { verdict: Some(false) })),
{
}

/// Oracle gating, transition half: a positive usage verdict resolves the
/// candidate at once — an oracle-skip record is written, no mutation is asked
/// for, and the ledger does not grow.
pub proof fn lemma_oracle_gating(pre: SessionState, e: Event, post: SessionState, a: Action)
    requires
        inv(pre),
        spec_step(pre, e, post, a),
        pre.phase == Phase::AwaitOracle,
        e matches Event::OracleDone { verdict: Some(true) },
    ensures
        post.ledger == pre.ledger,
        !(a is RunRemove),
        post.log@ == pre.log@.push(record_for(pre, Some(true), Resolution::SkippedOracle)),
        post.phase == Phase::AtEntry,
{
}

/// Oracle gating, record half: every attempted record stems from a negative
/// usage verdict; combined with the ledger law, nothing the oracle reported
/// as used ever reaches the ledger.
pub proof fn lemma_attempts_need_negative_verdict(s: SessionState)
    requires
        inv(s),
    ensures
        forall|i: int|
            0 <= i < s.log@.len() ==> ((#[trigger] s.log@[i]).resolution is Attempted ==> s.log@[
                i].oracle_used == Some(false)),
{
}

/// Feature-mode stability: the one-time probe fixes the session's feature
/// mode; no later transition changes it, and every verification-stage action
/// the machine issues carries exactly that mode.
pub proof fn lemma_feature_mode_fixed(pre: SessionState, e: Event, post: SessionState, a: Action)
    requires
        inv(pre),
        spec_step(pre, e, post, a),
        pre.phase != Phase::AwaitProbe,
    ensures
        post.all_features == pre.all_features,
        (a matches Action::RunCheck { all_features, .. } ==> all_features == pre.all_features),
        (a matches Action::RunBuild { all_features, .. } ==> all_features == pre.all_features),
        (a matches Action::RunDocTest { all_features, .. } ==> all_features == pre.all_features),
{
}

/// Empty-session reporting: at session end, an empty ledger yields only the
/// no-findings report and nothing is written; a non-empty ledger yields one
/// artifact whose content is exactly the ledger's replay texts in order.
pub proof fn lemma_session_end_output(pre: SessionState, e: Event, post: SessionState, a: Action)
    requires
        inv(pre),
        spec_step(pre, e, post, a),
        pre.phase == Phase::Finishing,
    ensures
        pre.ledger@.len() == 0 ==> a is ReportNoUnused,
        pre.ledger@.len() != 0 ==> (a matches Action::WriteArtifact { path, content } && path@
            == "unused.sh"@ && content@ == spec_concat_replays(ledger_view(pre.ledger@))),
{
}

} // verus!
