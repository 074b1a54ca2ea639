//! The descriptor-range closer's planning logic.
//!
//! A process about to replace its image discards every open descriptor at
//! or above a threshold.  The live descriptor set is read from the
//! process's descriptor directory, whose entries are named by decimal
//! descriptor numbers beside the `.` and `..` pseudo-entries.  This module
//! holds the verified selection: which entries name descriptors, and which
//! of those are to be closed.  An unreadable directory or an entry that is
//! neither a pseudo-entry nor a decimal number means the process's
//! descriptor bookkeeping assumptions are violated, and is reported as
//! `None` for the caller to treat as unrecoverable.

use vstd::prelude::*;

use crate::sys::{open_fd_dir, raw_descriptor, read_dir_names};

verus! {

/// An ASCII decimal digit.
pub open spec fn is_ascii_digit(b: u8) -> bool {
    48 <= b && b <= 57
}

/// Every byte of `s` is an ASCII decimal digit.
pub open spec fn all_digits(s: Seq<u8>) -> bool {
    forall|i: int| 0 <= i < s.len() ==> is_ascii_digit(#[trigger] s[i])
}

/// The value of a string of decimal digits, most significant first.
pub open spec fn decimal_value(s: Seq<u8>) -> int
    decreases s.len(),
{
    if s.len() == 0 {
        0
    } else {
        decimal_value(s.drop_last()) * 10 + (s.last() - 48)
    }
}

/// A directory entry that names a descriptor: one or more decimal digits
/// whose value fits the descriptor type.
pub open spec fn is_fd_name(s: Seq<u8>) -> bool {
    0 < s.len() && all_digits(s) && decimal_value(s) <= i32::MAX
}

/// One of the `.` and `..` pseudo-entries, which name no descriptor.
pub open spec fn is_dot_entry(s: Seq<u8>) -> bool {
    s == seq![46u8] || s == seq![46u8, 46u8]
}

/// Every entry of the listing is a pseudo-entry or a descriptor name.
pub open spec fn well_formed_listing(names: Seq<Seq<u8>>) -> bool {
    forall|i: int| 0 <= i < names.len() ==> is_dot_entry(#[trigger] names[i]) || is_fd_name(
        names[i],
    )
}

/// Whether the descriptor named by `s` is to be closed: at or above the
/// threshold, and not the descriptor the listing itself is being read
/// through.
pub open spec fn selected(s: Seq<u8>, from: int, listing_fd: int) -> bool {
    is_fd_name(s) && from <= decimal_value(s) && decimal_value(s) != listing_fd
}

/// The descriptors to close, in listing order.
pub open spec fn close_set(names: Seq<Seq<u8>>, from: int, listing_fd: int) -> Seq<int>
    decreases names.len(),
{
    if names.len() == 0 {
        Seq::empty()
    } else {
        let rest = close_set(names.drop_last(), from, listing_fd);
        if selected(names.last(), from, listing_fd) {
            rest.push(decimal_value(names.last()))
        } else {
            rest
        }
    }
}

/// A string of digits has a nonnegative value.
pub proof fn lemma_digits_value_nonneg(s: Seq<u8>)
    requires
        all_digits(s),
    ensures
        0 <= decimal_value(s),
    decreases s.len(),
{
    if s.len() > 0 {
        assert(all_digits(s.drop_last()));
        lemma_digits_value_nonneg(s.drop_last());
    }
}

/// Extending a string of digits never lowers its value.
pub proof fn lemma_prefix_value_le(s: Seq<u8>, j: int)
    requires
        all_digits(s),
        0 <= j <= s.len(),
    ensures
        decimal_value(s.take(j)) <= decimal_value(s),
    decreases s.len() - j,
{
    if j == s.len() {
        assert(s.take(j) =~= s);
    } else {
        assert(s.take(j + 1).drop_last() =~= s.take(j));
        assert(s.take(j + 1).last() == s[j]);
        assert(all_digits(s.take(j)));
        lemma_digits_value_nonneg(s.take(j));
        lemma_prefix_value_le(s, j + 1);
    }
}

/// Every planned descriptor is at or above the threshold and nonnegative.
pub proof fn lemma_close_set_bounds(names: Seq<Seq<u8>>, from: int, listing_fd: int)
    ensures
        forall|j: int| 0 <= j < close_set(names, from, listing_fd).len() ==> from <= #[trigger] close_set(
            names,
            from,
            listing_fd,
        )[j] && 0 <= close_set(names, from, listing_fd)[j],
    decreases names.len(),
{
    if names.len() > 0 {
        lemma_close_set_bounds(names.drop_last(), from, listing_fd);
        let rest = close_set(names.drop_last(), from, listing_fd);
        let whole = close_set(names, from, listing_fd);
        if selected(names.last(), from, listing_fd) {
            lemma_digits_value_nonneg(names.last());
            assert(whole == rest.push(decimal_value(names.last())));
            assert forall|j: int| 0 <= j < whole.len() implies from <= #[trigger] whole[j] && 0
                <= whole[j] by {
                if j < rest.len() {
                    assert(whole[j] == rest[j]);
                } else {
                    assert(whole[j] == decimal_value(names.last()));
                }
            }
        } else {
            assert(whole == rest);
        }
    }
}

/// Parses a directory-entry name as a decimal descriptor number: one or
/// more ASCII digits whose value fits an `i32`.  Anything else — an empty
/// name, a non-digit byte, a value past the descriptor range — is `None`.
pub fn parse_fd_name(name: &Vec<u8>) -> (r: Option<i32>)
    ensures
        r is Some <==> is_fd_name(name@),
        r matches Some(v) ==> v as int == decimal_value(name@),
{
    if name.len() == 0 {
        return None;
    }
    let limit: u32 = i32::MAX as u32;
    let mut acc: u32 = 0;
    let mut i: usize = 0;
    while i < name.len()
        invariant
            0 < name@.len(),
            0 <= i <= name@.len(),
            all_digits(name@.take(i as int)),
            acc as int == decimal_value(name@.take(i as int)),
            acc <= limit,
            limit == i32::MAX as u32,
        decreases name@.len() - i,
    {
        let b = name[i];
        if b < 48 || 57 < b {
            proof {
                assert(name@[i as int] == b);
                assert(!all_digits(name@));
            }
            return None;
        }
        let d: u32 = (b - 48) as u32;
        proof {
            assert(name@.take(i as int + 1).drop_last() =~= name@.take(i as int));
            assert(name@.take(i as int + 1).last() == name@[i as int]);
        }
        if acc > (limit - d) / 10 {
            proof {
                let m = (limit - d) as int;
                let q = m / 10;
                vstd::arithmetic::div_mod::lemma_fundamental_div_mod(m, 10);
                vstd::arithmetic::div_mod::lemma_mod_bound(m, 10);
                assert(10 * q + 10 > m);
                assert(acc as int >= q + 1);
                assert(10 * (acc as int) >= 10 * q + 10);
                assert(decimal_value(name@.take(i as int + 1)) == 10 * (acc as int) + d);
                assert(decimal_value(name@.take(i as int + 1)) > i32::MAX);
                if all_digits(name@) {
                    lemma_prefix_value_le(name@, i as int + 1);
                    assert(decimal_value(name@) > i32::MAX);
                }
            }
            return None;
        }
        proof {
            let m = (limit - d) as int;
            let q = m / 10;
            vstd::arithmetic::div_mod::lemma_fundamental_div_mod(m, 10);
            vstd::arithmetic::div_mod::lemma_mod_bound(m, 10);
            assert(10 * q <= m);
            assert(10 * (acc as int) <= 10 * q);
        }
        acc = acc * 10 + d;
        i = i + 1;
    }
    proof {
        assert(name@.take(i as int) =~= name@);
    }
    Some(acc as i32)
}

/// Reports whether an entry name is one of the `.` and `..` pseudo-entries.
fn is_dot_name(name: &Vec<u8>) -> (r: bool)
    ensures
        r == is_dot_entry(name@),
{
    if name.len() == 1 {
        let r = name[0] == 46;
        proof {
            if name@[0] == 46u8 {
                assert(name@ =~= seq![46u8]);
            } else {
                assert(name@ != seq![46u8]);
                assert(name@.len() != 2);
                assert(name@ != seq![46u8, 46u8]);
            }
        }
        r
    } else if name.len() == 2 {
        let r = name[0] == 46 && name[1] == 46;
        proof {
            if name@[0] == 46u8 && name@[1] == 46u8 {
                assert(name@ =~= seq![46u8, 46u8]);
            } else {
                assert(name@ != seq![46u8, 46u8]);
                assert(name@.len() != 1);
                assert(name@ != seq![46u8]);
            }
        }
        r
    } else {
        proof {
            assert(name@.len() != 1 && name@.len() != 2);
            assert(name@ != seq![46u8] && name@ != seq![46u8, 46u8]);
        }
        false
    }
}

/// Selects, from a descriptor-directory listing, the descriptors to close:
/// every entry naming a descriptor at or above `from`, in listing order,
/// except the `listing_fd` the directory is being read through; the `.` and
/// `..` pseudo-entries are skipped.  `None` exactly when some entry is
/// neither a pseudo-entry nor a decimal descriptor name.
pub fn close_targets(names: &Vec<Vec<u8>>, from: i32, listing_fd: i32) -> (r: Option<Vec<i32>>)
    ensures
        r is Some <==> well_formed_listing(names.deep_view()),
        r matches Some(v) ==> v@.map_values(|x: i32| x as int) == close_set(
            names.deep_view(),
            from as int,
            listing_fd as int,
        ),
{
    let ghost dv = names.deep_view();
    let mut out: Vec<i32> = Vec::new();
    let mut idx: usize = 0;
    while idx < names.len()
        invariant
            dv == names.deep_view(),
            dv.len() == names@.len(),
            forall|j: int| 0 <= j < dv.len() ==> #[trigger] dv[j] == names@[j]@,
            0 <= idx <= names@.len(),
            forall|j: int| 0 <= j < idx ==> is_dot_entry(#[trigger] dv[j]) || is_fd_name(dv[j]),
            out@.map_values(|x: i32| x as int) == close_set(
                dv.take(idx as int),
                from as int,
                listing_fd as int,
            ),
        decreases names@.len() - idx,
    {
        let name = &names[idx];
        proof {
            assert(dv.take(idx as int + 1).drop_last() =~= dv.take(idx as int));
            assert(dv.take(idx as int + 1).last() == dv[idx as int]);
        }
        if is_dot_name(name) {
            proof {
                assert(!is_fd_name(dv[idx as int]));
                assert(!selected(dv[idx as int], from as int, listing_fd as int));
            }
        } else {
            match parse_fd_name(name) {
                None => {
                    proof {
                        assert(!(is_dot_entry(dv[idx as int]) || is_fd_name(dv[idx as int])));
                        assert(!well_formed_listing(dv));
                    }
                    return None;
                },
                Some(v) => {
                    if from <= v && v != listing_fd {
                        out.push(v);
                        proof {
                            assert(selected(dv[idx as int], from as int, listing_fd as int));
                            assert(out@.map_values(|x: i32| x as int) =~= close_set(
                                dv.take(idx as int),
                                from as int,
                                listing_fd as int,
                            ).push(v as int));
                        }
                    } else {
                        proof {
                            assert(!selected(dv[idx as int], from as int, listing_fd as int));
                        }
                    }
                },
            }
        }
        idx = idx + 1;
    }
    proof {
        assert(dv.take(idx as int) =~= dv);
    }
    Some(out)
}

/// Reads the process's descriptor directory and plans the close through
/// [`close_targets`]: the returned descriptors, each at or above the
/// threshold and nonnegative, are those listed at or above `from`, except
/// the one the listing itself was read through.  `None` when the directory cannot be opened
/// or read, or an entry's name is not a decimal descriptor number — an
/// unrecoverable inconsistency for the caller to abort on.
pub fn closefrom_plan(from: i32) -> (r: Option<Vec<i32>>)
    ensures
        r matches Some(v) ==> forall|j: int| 0 <= j < v@.len() ==> from as int <= #[trigger] v@[j]
            as int && 0 <= v@[j] as int,
{
    let dir = match open_fd_dir() {
        Ok(dir) => dir,
        Err(_) => return None,
    };
    let listing_fd = raw_descriptor(&dir);
    let names = match read_dir_names(&dir) {
        Some(names) => names,
        None => return None,
    };
    match close_targets(&names, from, listing_fd) {
        Some(v) => {
            proof {
                lemma_close_set_bounds(names.deep_view(), from as int, listing_fd as int);
                let mapped = v@.map_values(|x: i32| x as int);
                assert forall|j: int| 0 <= j < v@.len() implies from as int <= #[trigger] v@[j]
                    as int && 0 <= v@[j] as int by {
                    assert(mapped[j] == v@[j] as int);
                }
            }
            Some(v)
        },
        None => None,
    }
}

} // verus!
