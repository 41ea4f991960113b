//! Validation of build orders before they are accepted into the store:
//! identifier shape, step-count bounds, and per-step emptiness checks,
//! applied to the top-level steps and to every branch.
use vstd::prelude::*;

use crate::model::{BuildOrder, BuildOrderBranchV, BuildOrderStepV, BuildOrderV};
use crate::text::{
    all_whitespace, chars_all_whitespace, chars_to_string, dec_digits, push_decimal, str_to_chars,
};

verus! {

/// Characters an identifier may contain: ASCII letters, digits, '-', '_'.
pub open spec fn valid_id_char(c: char) -> bool {
    let u = c as u32;
    (48 <= u <= 57) || (65 <= u <= 90) || (97 <= u <= 122) || c == '-' || c == '_'
}

/// A well-formed identifier: non-empty, at most 64 characters, restricted
/// to the identifier character set.
pub open spec fn valid_id(s: Seq<char>) -> bool {
    1 <= s.len() <= 64 && forall|i: int| 0 <= i < s.len() ==> valid_id_char(#[trigger] s[i])
}

/// The diagnostic an identifier draws, or `None` when it is accepted.
pub open spec fn spec_id_error(s: Seq<char>) -> Option<Seq<char>> {
    if s.len() == 0 {
        Some("Build order id is required"@)
    } else if s.len() > 64 {
        Some("Build order id exceeds max length of 64 characters"@)
    } else if !(forall|i: int| 0 <= i < s.len() ==> valid_id_char(#[trigger] s[i])) {
        Some("Build order id may only contain letters, numbers, '-' or '_'"@)
    } else {
        None
    }
}

/// Identifier acceptance is exactly `valid_id`.
pub proof fn lemma_validate_identifier_exact(s: Seq<char>)
    ensures
        (spec_id_error(s) is None) <==> valid_id(s),
{
}

fn exec_valid_id_char(c: char) -> (r: bool)
    ensures
        r == valid_id_char(c),
{
    let u = c as u32;
    (48 <= u && u <= 57) || (65 <= u && u <= 90) || (97 <= u && u <= 122) || c == '-' || c == '_'
}

/// Checks an identifier, reporting the first rule it breaks.
pub fn validate_build_order_id(id: &str) -> (r: Result<(), String>)
    ensures
        match r {
            Ok(_) => spec_id_error(id@) is None && valid_id(id@),
            Err(m) => spec_id_error(id@) == Some(m@) && !valid_id(id@),
        },
{
    let chars = str_to_chars(id);
    if chars.len() == 0 {
        return Err("Build order id is required".to_owned());
    }
    if chars.len() > 64 {
        return Err("Build order id exceeds max length of 64 characters".to_owned());
    }
    let mut i: usize = 0;
    while i < chars.len()
        invariant
            chars@ == id@,
            1 <= chars@.len() <= 64,
            i <= chars@.len(),
            forall|k: int| 0 <= k < i ==> valid_id_char(#[trigger] chars@[k]),
        decreases chars@.len() - i,
    {
        if !exec_valid_id_char(chars[i]) {
            assert(!valid_id_char(id@[i as int]));
            return Err("Build order id may only contain letters, numbers, '-' or '_'".to_owned());
        }
        i += 1;
    }
    Ok(())
}

/// A step passes the emptiness checks: its id and description do not trim
/// to nothing.
pub open spec fn step_ok(s: BuildOrderStepV) -> bool {
    !all_whitespace(s.id) && !all_whitespace(s.description)
}

/// The first failing step, with whether its id (rather than its
/// description) is the blank field.
pub open spec fn first_bad_step(steps: Seq<BuildOrderStepV>) -> Option<(int, bool)>
    decreases steps.len(),
{
    if steps.len() == 0 {
        None
    } else if all_whitespace(steps[0].id) {
        Some((0int, true))
    } else if all_whitespace(steps[0].description) {
        Some((0int, false))
    } else {
        match first_bad_step(steps.drop_first()) {
            None => None,
            Some((i, b)) => Some((i + 1, b)),
        }
    }
}

proof fn lemma_first_bad_step_none(steps: Seq<BuildOrderStepV>)
    requires
        forall|k: int| 0 <= k < steps.len() ==> step_ok(#[trigger] steps[k]),
    ensures
        first_bad_step(steps) is None,
    decreases steps.len(),
{
    if steps.len() > 0 {
        assert(step_ok(steps[0]));
        assert(forall|k: int|
            0 <= k < steps.drop_first().len() ==> step_ok(#[trigger] steps.drop_first()[k]));
        lemma_first_bad_step_none(steps.drop_first());
    }
}

proof fn lemma_first_bad_step_at(steps: Seq<BuildOrderStepV>, i: int)
    requires
        0 <= i < steps.len(),
        forall|k: int| 0 <= k < i ==> step_ok(#[trigger] steps[k]),
        !step_ok(steps[i]),
    ensures
        first_bad_step(steps) == Some((i, all_whitespace(steps[i].id))),
    decreases i,
{
    if i == 0 {
    } else {
        assert(step_ok(steps[0]));
        assert(forall|k: int|
            0 <= k < i - 1 ==> step_ok(#[trigger] steps.drop_first()[k]));
        assert(steps.drop_first()[i - 1] == steps[i]);
        lemma_first_bad_step_at(steps.drop_first(), i - 1);
    }
}

/// Message for a blank field in a top-level step, 1-based.
pub open spec fn top_step_msg(i: int, is_id: bool) -> Seq<char> {
    "Step "@ + dec_digits((i + 1) as nat) + (if is_id {
        " is missing an id"@
    } else {
        " is missing a description"@
    })
}

/// Message for a blank field in a branch step, 1-based, naming the branch.
pub open spec fn branch_step_msg(name: Seq<char>, i: int, is_id: bool) -> Seq<char> {
    "Branch "@ + name + " step "@ + dec_digits((i + 1) as nat) + (if is_id {
        " is missing an id"@
    } else {
        " is missing a description"@
    })
}

/// Message for a branch whose step list is over the bound.
pub open spec fn branch_size_msg(name: Seq<char>, n: nat) -> Seq<char> {
    "Branch \""@ + name + "\" exceeds maximum of 200 steps (has "@ + dec_digits(n) + ")"@
}

/// Message for a branch whose step list is empty.
pub open spec fn branch_empty_msg(name: Seq<char>) -> Seq<char> {
    "Branch \""@ + name + "\" must contain at least one step"@
}

/// Message for a build order whose step list is over the bound.
pub open spec fn order_size_msg(n: nat) -> Seq<char> {
    "Build order exceeds maximum of 200 steps (has "@ + dec_digits(n) + ")"@
}

/// The diagnostic the branch list draws: the first branch whose step
/// count falls outside 1..=200 or that holds a blank step, checked in
/// order. The step-count bound applies to every branch exactly as it
/// does to the top-level steps.
pub open spec fn spec_branches_error(bs: Seq<BuildOrderBranchV>) -> Option<Seq<char>>
    decreases bs.len(),
{
    if bs.len() == 0 {
        None
    } else {
        let b = bs[0];
        if b.steps.len() == 0 {
            Some(branch_empty_msg(b.name))
        } else if b.steps.len() > 200 {
            Some(branch_size_msg(b.name, b.steps.len()))
        } else {
            match first_bad_step(b.steps) {
                Some((i, is_id)) => Some(branch_step_msg(b.name, i, is_id)),
                None => spec_branches_error(bs.drop_first()),
            }
        }
    }
}

/// The diagnostic a build order draws, checking the identifier, then the
/// step-count bounds, then each step, then every branch; `None` when the
/// order is accepted. Checking stops at the first failure.
pub open spec fn spec_validate_build_order(o: BuildOrderV) -> Option<Seq<char>> {
    if spec_id_error(o.id) is Some {
        spec_id_error(o.id)
    } else if o.steps.len() == 0 {
        Some("Build order must contain at least one step"@)
    } else if o.steps.len() > 200 {
        Some(order_size_msg(o.steps.len()))
    } else {
        match first_bad_step(o.steps) {
            Some((i, is_id)) => Some(top_step_msg(i, is_id)),
            None => match o.branches {
                Some(bs) => spec_branches_error(bs),
                None => None,
            },
        }
    }
}

/// An order with no steps is rejected with the "at least one step" message
/// (assuming its identifier passes, which is checked first).
pub proof fn lemma_validate_empty_steps(o: BuildOrderV)
    requires
        valid_id(o.id),
        o.steps.len() == 0,
    ensures
        spec_validate_build_order(o) == Some("Build order must contain at least one step"@),
{
}

/// An order with more than 200 steps is rejected with the "exceeds
/// maximum" message naming the count (assuming its identifier passes).
pub proof fn lemma_validate_exceeds_max_steps(o: BuildOrderV)
    requires
        valid_id(o.id),
        o.steps.len() > 200,
    ensures
        spec_validate_build_order(o) == Some(order_size_msg(o.steps.len())),
{
}

/// An otherwise-valid order with a branch whose step list is empty is
/// rejected, the branch named in the message: the 1..=200 step bound
/// applies to every branch just as to the top-level steps.
pub proof fn lemma_validate_branch_empty_steps(o: BuildOrderV)
    requires
        valid_id(o.id),
        1 <= o.steps.len() <= 200,
        forall|k: int| 0 <= k < o.steps.len() ==> step_ok(#[trigger] o.steps[k]),
        o.branches is Some,
        o.branches->0.len() >= 1,
        o.branches->0[0].steps.len() == 0,
    ensures
        spec_validate_build_order(o) == Some(branch_empty_msg(o.branches->0[0].name)),
{
    lemma_first_bad_step_none(o.steps);
}

/// An order whose identifier passes, whose 1..=200 steps are all
/// non-blank, and whose branches pass is accepted.
pub proof fn lemma_validate_accepts(o: BuildOrderV)
    requires
        valid_id(o.id),
        1 <= o.steps.len() <= 200,
        forall|k: int| 0 <= k < o.steps.len() ==> step_ok(#[trigger] o.steps[k]),
        match o.branches {
            Some(bs) => spec_branches_error(bs) is None,
            None => true,
        },
    ensures
        spec_validate_build_order(o) is None,
{
    lemma_first_bad_step_none(o.steps);
}

fn step_field_blank(s: &String) -> (r: bool)
    ensures
        r == all_whitespace(s@),
{
    let chars = str_to_chars(s.as_str());
    chars_all_whitespace(&chars)
}

fn make_step_msg(prefix: Vec<char>, index_plus_one: u64, is_id: bool) -> (r: String)
    ensures
        r@ == prefix@ + dec_digits(index_plus_one as nat) + (if is_id {
            " is missing an id"@
        } else {
            " is missing a description"@
        }),
{
    let mut m = prefix;
    let ghost base = m@;
    push_decimal(index_plus_one, &mut m);
    let tail = if is_id {
        " is missing an id"
    } else {
        " is missing a description"
    };
    let t = str_to_chars(tail);
    let mut k: usize = 0;
    while k < t.len()
        invariant
            k <= t@.len(),
            t@ == (if is_id {
                " is missing an id"@
            } else {
                " is missing a description"@
            }),
            m@ == base + dec_digits(index_plus_one as nat) + t@.take(k as int),
        decreases t@.len() - k,
    {
        m.push(t[k]);
        proof {
            assert(t@.take(k as int).push(t@[k as int]) =~= t@.take(k + 1 as int));
            assert(m@ =~= base + dec_digits(index_plus_one as nat) + t@.take(k + 1 as int));
        }
        k += 1;
    }
    proof {
        assert(t@.take(t@.len() as int) =~= t@);
    }
    chars_to_string(&m)
}

/// Checks a build order against every rule, reporting the first failure
/// with a message that localizes it.
#[verifier::rlimit(100)]
#[verifier::loop_isolation(false)]
pub fn validate_build_order(order: &BuildOrder) -> (r: Result<(), String>)
    ensures
        match r {
            Ok(_) => spec_validate_build_order(order@) is None,
            Err(m) => spec_validate_build_order(order@) == Some(m@),
        },
{
    broadcast use vstd::seq_lib::group_seq_properties;

    match validate_build_order_id(order.id.as_str()) {
        Err(m) => {
            return Err(m);
        },
        Ok(_) => {},
    }
    let ghost ov = order@;
    let n = order.steps.len();
    if n == 0 {
        return Err("Build order must contain at least one step".to_owned());
    }
    if n > 200 {
        let mut m = str_to_chars("Build order exceeds maximum of 200 steps (has ");
        push_decimal(n as u64, &mut m);
        crate::text::append_str(&mut m, ")");
        proof {
            assert(ov.steps.len() == n);
            assert(m@ =~= order_size_msg(n as nat));
        }
        return Err(chars_to_string(&m));
    }
    let mut i: usize = 0;
    while i < n
        invariant
            n == order.steps@.len(),
            ov == order@,
            ov.steps.len() == n,
            i <= n,
            forall|k: int| 0 <= k < i ==> step_ok(#[trigger] ov.steps[k]),
        decreases n - i,
    {
        proof {
            assert(ov.steps[i as int] == order.steps@[i as int]@);
        }
        if step_field_blank(&order.steps[i].id) {
            proof {
                lemma_first_bad_step_at(ov.steps, i as int);
            }
            let m = make_step_msg(str_to_chars("Step "), (i + 1) as u64, true);
            proof {
                assert(m@ =~= top_step_msg(i as int, true));
                assert(first_bad_step(ov.steps) == Some((i as int, true)));
                assert(spec_validate_build_order(order@) == Some(m@));
            }
            return Err(m);
        }
        if step_field_blank(&order.steps[i].description) {
            proof {
                lemma_first_bad_step_at(ov.steps, i as int);
            }
            let m = make_step_msg(str_to_chars("Step "), (i + 1) as u64, false);
            proof {
                assert(m@ =~= top_step_msg(i as int, false));
                assert(first_bad_step(ov.steps) == Some((i as int, false)));
                assert(spec_validate_build_order(order@) == Some(m@));
            }
            return Err(m);
        }
        i += 1;
    }
    proof {
        lemma_first_bad_step_none(ov.steps);
    }
    match &order.branches {
        None => Ok(()),
        Some(branches) => {
            let ghost bsv = ov.branches->0;
            proof {
                assert(ov.branches == Some(branches@.map_values(|b: crate::model::BuildOrderBranch| b@)));
                assert(bsv.len() == branches@.len());
            }
            let bn = branches.len();
            let mut j: usize = 0;
            while j < bn
                invariant
                    bn == branches@.len(),
                    ov == order@,
                    ov.branches == Some(bsv),
                    bsv == branches@.map_values(|b: crate::model::BuildOrderBranch| b@),
                    bsv.len() == bn,
                    j <= bn,
                    spec_branches_error(bsv) == spec_branches_error(bsv.skip(j as int)),
                    spec_validate_build_order(ov) == (match spec_branches_error(bsv) {
                        Some(m) => Some(m),
                        None => None::<Seq<char>>,
                    }),
                decreases bn - j,
            {
                let branch = &branches[j];
                let ghost bv = bsv[j as int];
                proof {
                    assert(bv == branches@[j as int]@);
                    assert(bsv.skip(j as int)[0] == bv);
                    assert(bsv.skip(j as int).drop_first() =~= bsv.skip(j + 1 as int));
                }
                let bsn = branch.steps.len();
                if bsn == 0 {
                    let mut m = str_to_chars("Branch \"");
                    crate::text::append_str(&mut m, branch.name.as_str());
                    crate::text::append_str(&mut m, "\" must contain at least one step");
                    proof {
                        assert(bv.steps.len() == 0);
                        assert(m@ =~= branch_empty_msg(bv.name));
                    }
                    return Err(chars_to_string(&m));
                }
                if bsn > 200 {
                    let mut m = str_to_chars("Branch \"");
                    crate::text::append_str(&mut m, branch.name.as_str());
                    crate::text::append_str(&mut m, "\" exceeds maximum of 200 steps (has ");
                    push_decimal(bsn as u64, &mut m);
                    crate::text::append_str(&mut m, ")");
                    proof {
                        assert(bv.steps.len() == bsn);
                        assert(m@ =~= branch_size_msg(bv.name, bsn as nat));
                    }
                    return Err(chars_to_string(&m));
                }
                let mut k: usize = 0;
                while k < bsn
                    invariant
                        bsn == branch.steps@.len(),
                        bv == branch@,
                        bv.steps.len() == bsn,
                        bsn <= 200,
                        k <= bsn,
                        forall|q: int| 0 <= q < k ==> step_ok(#[trigger] bv.steps[q]),
                    decreases bsn - k,
                {
                    proof {
                        assert(bv.steps[k as int] == branch.steps@[k as int]@);
                    }
                    if step_field_blank(&branch.steps[k].id) {
                        proof {
                            lemma_first_bad_step_at(bv.steps, k as int);
                        }
                        let mut p = str_to_chars("Branch ");
                        crate::text::append_str(&mut p, branch.name.as_str());
                        crate::text::append_str(&mut p, " step ");
                        let m = make_step_msg(p, (k + 1) as u64, true);
                        proof {
                            assert(m@ =~= branch_step_msg(bv.name, k as int, true));
                            assert(first_bad_step(bv.steps) == Some((k as int, true)));
                            assert(spec_branches_error(bsv.skip(j as int)) == Some(
                                branch_step_msg(bv.name, k as int, true),
                            ));
                            assert(spec_validate_build_order(order@) == Some(m@));
                        }
                        return Err(m);
                    }
                    if step_field_blank(&branch.steps[k].description) {
                        proof {
                            lemma_first_bad_step_at(bv.steps, k as int);
                        }
                        let mut p = str_to_chars("Branch ");
                        crate::text::append_str(&mut p, branch.name.as_str());
                        crate::text::append_str(&mut p, " step ");
                        let m = make_step_msg(p, (k + 1) as u64, false);
                        proof {
                            assert(m@ =~= branch_step_msg(bv.name, k as int, false));
                            assert(first_bad_step(bv.steps) == Some((k as int, false)));
                            assert(spec_branches_error(bsv.skip(j as int)) == Some(
                                branch_step_msg(bv.name, k as int, false),
                            ));
                            assert(spec_validate_build_order(order@) == Some(m@));
                        }
                        return Err(m);
                    }
                    k += 1;
                }
                proof {
                    lemma_first_bad_step_none(bv.steps);
                    assert(spec_branches_error(bsv.skip(j as int)) == spec_branches_error(
                        bsv.skip(j + 1 as int),
                    ));
                }
                j += 1;
            }
            proof {
                assert(bsv.skip(bn as int).len() == 0);
            }
            Ok(())
        },
    }
}

} // verus!
