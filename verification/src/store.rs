//! The shared application state: the current configuration and the current
//! build-order collection, with the in-memory half of every mutating
//! operation. Callers persist to disk first and commit here only after the
//! write succeeds, so memory never runs ahead of disk.
use vstd::prelude::*;

use crate::codec::{parse_build_order, spec_parse_build_order};
use crate::model::{AppConfig, BuildOrder, BuildOrderV};
use crate::text::{dec_digits, push_decimal, str_to_chars};
use crate::validate::{
    spec_id_error, spec_validate_build_order, valid_id, validate_build_order,
    validate_build_order_id,
};

verus! {

/// Upper bound, in bytes, on a build-order file accepted for import.
pub const MAX_IMPORT_SIZE: u64 = 1024 * 1024;

/// Event broadcast after every successful configuration mutation.
pub fn config_changed_event() -> (r: &'static str)
    ensures
        r@ == "config-changed"@,
{
    "config-changed"
}

/// Event broadcast after every successful build-order-collection mutation.
pub fn build_orders_changed_event() -> (r: &'static str)
    ensures
        r@ == "build-orders-changed"@,
{
    "build-orders-changed"
}

/// Directory under the per-user configuration root that holds the files.
pub fn app_dir_name() -> (r: &'static str)
    ensures
        r@ == "aoe4-overlay"@,
{
    "aoe4-overlay"
}

/// File under the application directory holding the configuration.
pub fn config_file_name() -> (r: &'static str)
    ensures
        r@ == "config.json"@,
{
    "config.json"
}

/// Subdirectory holding one file per build order.
pub fn build_orders_dir_name() -> (r: &'static str)
    ensures
        r@ == "build-orders"@,
{
    "build-orders"
}

/// The file a build order is persisted under: its identifier plus `.json`.
pub fn build_order_file_name(id: &str) -> (r: String)
    ensures
        r@ == id@ + ".json"@,
{
    let mut out = str_to_chars(id);
    crate::text::append_str(&mut out, ".json");
    crate::text::chars_to_string(&out)
}

/// Message rejecting an import larger than the size cap.
pub open spec fn spec_too_large_msg(len: u64) -> Seq<char> {
    "File too large: "@ + dec_digits(len as nat) + " bytes (max 1048576 bytes)"@
}

/// Checks an import's size against the cap, before anything is parsed.
pub fn check_import_size(len: u64) -> (r: Result<(), String>)
    ensures
        match r {
            Ok(_) => len <= MAX_IMPORT_SIZE,
            Err(m) => len > MAX_IMPORT_SIZE && m@ == spec_too_large_msg(len),
        },
{
    if len <= MAX_IMPORT_SIZE {
        Ok(())
    } else {
        let mut out = str_to_chars("File too large: ");
        push_decimal(len, &mut out);
        crate::text::append_str(&mut out, " bytes (max 1048576 bytes)");
        Err(crate::text::chars_to_string(&out))
    }
}

/// Message rejecting an import whose identifier is already present.
pub open spec fn spec_duplicate_msg(id: Seq<char>) -> Seq<char> {
    "A build order with id \""@ + id
        + "\" already exists. Delete or rename it before importing."@
}

/// Message rejecting an import that is not a parseable build order.
pub open spec fn spec_bad_format_msg() -> Seq<char> {
    "Invalid build order format: not a valid build order document"@
}

/// The views of the orders a collection holds, in order.
pub open spec fn orders_view(orders: Seq<BuildOrder>) -> Seq<BuildOrderV> {
    orders.map_values(|o: BuildOrder| o@)
}

/// The first position holding the identifier, if any.
pub open spec fn spec_find(os: Seq<BuildOrderV>, id: Seq<char>) -> Option<int>
    decreases os.len(),
{
    if os.len() == 0 {
        None
    } else if os[0].id == id {
        Some(0int)
    } else {
        match spec_find(os.drop_first(), id) {
            None => None,
            Some(k) => Some(k + 1),
        }
    }
}

/// Whether some order in the collection carries the identifier.
pub open spec fn spec_has_id(os: Seq<BuildOrderV>, id: Seq<char>) -> bool {
    spec_find(os, id) is Some
}

proof fn lemma_spec_find_bounds(os: Seq<BuildOrderV>, id: Seq<char>)
    ensures
        match spec_find(os, id) {
            Some(k) => 0 <= k < os.len() && os[k].id == id,
            None => true,
        },
    decreases os.len(),
{
    if os.len() > 0 && os[0].id != id {
        lemma_spec_find_bounds(os.drop_first(), id);
    }
}

fn find_order(orders: &Vec<BuildOrder>, id: &str) -> (r: Option<usize>)
    ensures
        match r {
            Some(k) => spec_find(orders_view(orders@), id@) == Some(k as int) && k
                < orders@.len(),
            None => spec_find(orders_view(orders@), id@) is None,
        },
{
    let ghost all = orders_view(orders@);
    proof {
        assert(all.skip(0) =~= all);
    }
    let mut i: usize = 0;
    while i < orders.len()
        invariant
            i <= orders@.len(),
            all == orders_view(orders@),
            all.len() == orders@.len(),
            spec_find(all, id@) == (match spec_find(all.skip(i as int), id@) {
                None => None::<int>,
                Some(k) => Some(k + i),
            }),
        decreases orders@.len() - i,
    {
        proof {
            assert(all.skip(i as int)[0] == all[i as int]);
            assert(all[i as int] == orders@[i as int]@);
            assert(all.skip(i as int).drop_first() =~= all.skip(i + 1 as int));
        }
        if crate::codec::str_eq(orders[i].id.as_str(), id) {
            return Some(i);
        }
        i += 1;
    }
    proof {
        assert(all.skip(orders@.len() as int).len() == 0);
    }
    None
}

/// The process-wide shared state: one configuration and one ordered
/// build-order collection. The surrounding application holds it behind
/// its locks; every method here is one linearized transition.
pub struct AppState {
    pub config: AppConfig,
    pub build_orders: Vec<BuildOrder>,
}

impl AppState {
    /// A store holding what the loaders produced at startup.
    pub fn new(config: AppConfig, build_orders: Vec<BuildOrder>) -> (r: AppState)
        ensures
            r.config == config,
            r.build_orders == build_orders,
    {
        AppState { config, build_orders }
    }

    /// The current configuration.
    pub fn get_config(&self) -> (r: &AppConfig)
        ensures
            r == &self.config,
    {
        &self.config
    }

    /// The current build-order collection.
    pub fn get_build_orders(&self) -> (r: &Vec<BuildOrder>)
        ensures
            r == &self.build_orders,
    {
        &self.build_orders
    }

    /// Replaces the configuration wholesale. The caller persists the new
    /// value first and calls this only after the write succeeded.
    pub fn save_config(&mut self, config: AppConfig)
        ensures
            final(self).config == config,
            final(self).build_orders == old(self).build_orders,
    {
        self.config = config;
    }

    /// Flips the click-through flag, returning the new value. The caller
    /// persists the flipped configuration before committing here.
    pub fn toggle_click_through(&mut self) -> (r: bool)
        ensures
            final(self).config == (AppConfig {
                click_through: !old(self).config.click_through,
                ..old(self).config
            }),
            r == !old(self).config.click_through,
            final(self).build_orders == old(self).build_orders,
    {
        let new_state = !self.config.click_through;
        self.config.click_through = new_state;
        new_state
    }

    /// Flips the compact-mode flag, returning the new value.
    pub fn toggle_compact_mode(&mut self) -> (r: bool)
        ensures
            final(self).config == (AppConfig {
                compact_mode: !old(self).config.compact_mode,
                ..old(self).config
            }),
            r == !old(self).config.compact_mode,
            final(self).build_orders == old(self).build_orders,
    {
        let new_state = !self.config.compact_mode;
        self.config.compact_mode = new_state;
        new_state
    }

    /// Validates and inserts-or-updates a build order, keyed by id: the
    /// first entry with the same id is replaced, otherwise the order is
    /// appended. The caller writes the order's file before committing.
    pub fn save_build_order(&mut self, order: BuildOrder) -> (r: Result<(), String>)
        ensures
            final(self).config == old(self).config,
            match r {
                Ok(_) => spec_validate_build_order(order@) is None && (match spec_find(
                    orders_view(old(self).build_orders@),
                    order@.id,
                ) {
                    Some(k) => orders_view(final(self).build_orders@) == orders_view(
                        old(self).build_orders@,
                    ).update(k, order@),
                    None => orders_view(final(self).build_orders@) == orders_view(
                        old(self).build_orders@,
                    ).push(order@),
                }),
                Err(m) => spec_validate_build_order(order@) == Some(m@)
                    && final(self).build_orders == old(self).build_orders,
            },
    {
        match validate_build_order(&order) {
            Err(m) => {
                return Err(m);
            },
            Ok(_) => {},
        }
        let ghost oldv = orders_view(self.build_orders@);
        match find_order(&self.build_orders, order.id.as_str()) {
            Some(k) => {
                proof {
                    lemma_spec_find_bounds(oldv, order@.id);
                }
                self.build_orders[k] = order;
                proof {
                    assert(orders_view(self.build_orders@) =~= oldv.update(k as int, order@));
                }
            },
            None => {
                self.build_orders.push(order);
                proof {
                    assert(orders_view(self.build_orders@) =~= oldv.push(order@));
                }
            },
        }
        Ok(())
    }

    /// Removes the build order with the identifier from the collection.
    /// Removal is idempotent with respect to a missing entry or file: an
    /// absent id still reports success.
    pub fn delete_build_order(&mut self, id: &str) -> (r: Result<(), String>)
        ensures
            final(self).config == old(self).config,
            match r {
                Ok(_) => valid_id(id@) && orders_view(final(self).build_orders@) == orders_view(
                    old(self).build_orders@,
                ).filter(|o: BuildOrderV| o.id != id@),
                Err(m) => spec_id_error(id@) == Some(m@)
                    && final(self).build_orders == old(self).build_orders,
            },
    {
        match validate_build_order_id(id) {
            Err(m) => {
                return Err(m);
            },
            Ok(_) => {},
        }
        let ghost oldv = orders_view(self.build_orders@);
        let ghost pred = |o: BuildOrderV| o.id != id@;
        let mut i: usize = 0;
        let ghost mut j: int = 0;
        proof {
            reveal_with_fuel(Seq::filter, 2);
            assert(oldv.take(0).filter(pred) =~= Seq::<BuildOrderV>::empty());
            assert(orders_view(self.build_orders@) =~= oldv.take(0int).filter(pred) + oldv.skip(
                0int,
            ));
        }
        while i < self.build_orders.len()
            invariant
                self.config == old(self).config,
                oldv == orders_view(old(self).build_orders@),
                pred == (|o: BuildOrderV| o.id != id@),
                0 <= j <= oldv.len(),
                i as int == oldv.take(j).filter(pred).len(),
                i <= self.build_orders@.len(),
                orders_view(self.build_orders@) == oldv.take(j).filter(pred) + oldv.skip(j),
            decreases oldv.len() - j,
        {
            proof {
                assert(oldv.take(j).filter(pred).len() <= oldv.take(j).len()) by {
                    oldv.take(j).filter_lemma(pred);
                }
                assert(orders_view(self.build_orders@)[i as int] == oldv.skip(j)[0]);
                assert(oldv.skip(j)[0] == oldv[j]);
                assert(orders_view(self.build_orders@)[i as int] == self.build_orders@[
                    i as int
                ]@);
            }
            let keep = !crate::codec::str_eq(self.build_orders[i].id.as_str(), id);
            proof {
                assert(oldv.take(j + 1).drop_last() =~= oldv.take(j));
                assert(oldv.take(j + 1).last() == oldv[j]);
            }
            if keep {
                proof {
                    reveal_with_fuel(Seq::filter, 2);
                    assert(pred(oldv[j]));
                    assert(oldv.take(j + 1).len() > 0);
                    assert(oldv.take(j + 1).filter(pred) == oldv.take(j + 1).drop_last().filter(
                        pred,
                    ).push(oldv.take(j + 1).last()));
                    assert(oldv.take(j + 1).filter(pred) == oldv.take(j).filter(pred).push(
                        oldv[j],
                    ));
                    assert(orders_view(self.build_orders@) =~= oldv.take(j + 1).filter(pred)
                        + oldv.skip(j + 1));
                }
                i += 1;
            } else {
                let ghost prev = self.build_orders@;
                let _removed = self.build_orders.remove(i);
                proof {
                    reveal_with_fuel(Seq::filter, 2);
                    assert(!pred(oldv[j]));
                    assert(oldv.take(j + 1).len() > 0);
                    assert(oldv.take(j + 1).filter(pred) == oldv.take(j + 1).drop_last().filter(
                        pred,
                    ));
                    assert(oldv.take(j + 1).filter(pred) == oldv.take(j).filter(pred));
                    assert(self.build_orders@ == prev.remove(i as int));
                    assert(orders_view(self.build_orders@) =~= orders_view(prev).remove(
                        i as int,
                    ));
                    assert(orders_view(prev).remove(i as int) =~= oldv.take(j).filter(pred)
                        + oldv.skip(j + 1));
                    assert(orders_view(self.build_orders@) =~= oldv.take(j + 1).filter(pred)
                        + oldv.skip(j + 1));
                }
            }
            proof {
                j = j + 1;
            }
        }
        proof {
            assert(orders_view(self.build_orders@).len() == oldv.take(j).filter(pred).len() + (
            oldv.len() - j));
            assert(j == oldv.len());
            assert(oldv.take(j) =~= oldv);
            assert(oldv.skip(j).len() == 0);
            assert(orders_view(self.build_orders@) =~= oldv.filter(pred));
        }
        Ok(())
    }

    /// Parses, validates and inserts an imported build order: a duplicate
    /// identifier is rejected before anything is written, naming the id.
    /// The caller persists the order's file between validation and the
    /// commit here, exactly as for a save.
    pub fn import_build_order(&mut self, content: &str) -> (r: Result<(), String>)
        ensures
            final(self).config == old(self).config,
            match r {
                Ok(_) => (match spec_parse_build_order(content@) {
                    Some(ov) => spec_validate_build_order(ov) is None && !spec_has_id(
                        orders_view(old(self).build_orders@),
                        ov.id,
                    ) && orders_view(final(self).build_orders@) == orders_view(
                        old(self).build_orders@,
                    ).push(ov),
                    None => false,
                }),
                Err(m) => final(self).build_orders == old(self).build_orders && (match
                    spec_parse_build_order(content@) {
                    None => m@ == spec_bad_format_msg(),
                    Some(ov) => (if spec_validate_build_order(ov) is Some {
                        spec_validate_build_order(ov) == Some(m@)
                    } else {
                        spec_has_id(orders_view(old(self).build_orders@), ov.id) && m@
                            == spec_duplicate_msg(ov.id)
                    }),
                }),
            },
    {
        let order = match parse_build_order(content) {
            Some(o) => o,
            None => {
                return Err(
                    "Invalid build order format: not a valid build order document".to_owned(),
                );
            },
        };
        match validate_build_order(&order) {
            Err(m) => {
                return Err(m);
            },
            Ok(_) => {},
        }
        let ghost oldv = orders_view(self.build_orders@);
        match find_order(&self.build_orders, order.id.as_str()) {
            Some(_) => {
                let mut msg = str_to_chars("A build order with id \"");
                crate::text::append_str(&mut msg, order.id.as_str());
                crate::text::append_str(
                    &mut msg,
                    "\" already exists. Delete or rename it before importing.",
                );
                proof {
                    assert(msg@ =~= spec_duplicate_msg(order@.id));
                }
                Err(crate::text::chars_to_string(&msg))
            },
            None => {
                let ghost ov2 = order@;
                self.build_orders.push(order);
                proof {
                    assert(orders_view(self.build_orders@) =~= oldv.push(ov2));
                }
                Ok(())
            },
        }
    }
}

} // verus!
