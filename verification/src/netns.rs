//! Publishing a process's network namespace under a discoverable name, and
//! cleaning stale entries out of the namespace registry.
//!
//! Publishing is one filesystem symlink from the registry path for a pid to
//! that process's kernel-exposed namespace handle; the symlink itself is
//! operating-system work and happens outside this crate. What is decided
//! and computed here: the two paths, rendered exactly; which directory
//! entries count as pids when the process table or the registry is scanned;
//! and which registry entries are stale and should be removed.

use vstd::prelude::*;
use vstd::string::StrSliceExecFns;
use vstd::string::StringExecFns;

verus! {

/// Whether `c` is a decimal digit.
pub open spec fn is_dec_digit(c: char) -> bool {
    48 <= c as u32 <= 57
}

/// The numeric value of a decimal digit (0 for any other character).
pub open spec fn digit_val(c: char) -> nat {
    if is_dec_digit(c) {
        (c as u32 - 48) as nat
    } else {
        0
    }
}

/// The decimal digit character for a value below ten.
pub open spec fn digit_char(d: nat) -> char {
    if d == 0 {
        '0'
    } else if d == 1 {
        '1'
    } else if d == 2 {
        '2'
    } else if d == 3 {
        '3'
    } else if d == 4 {
        '4'
    } else if d == 5 {
        '5'
    } else if d == 6 {
        '6'
    } else if d == 7 {
        '7'
    } else if d == 8 {
        '8'
    } else {
        '9'
    }
}

/// The decimal rendering of `n`: most significant digit first, no sign, no
/// leading zeros (a single `'0'` for zero).
pub open spec fn dec_digits(n: nat) -> Seq<char>
    decreases n,
{
    if n < 10 {
        seq![digit_char(n)]
    } else {
        dec_digits(n / 10) + seq![digit_char(n % 10)]
    }
}

/// The numeric value of a digit string, most significant digit first.
pub open spec fn dec_value(s: Seq<char>) -> nat
    decreases s.len(),
{
    if s.len() == 0 {
        0
    } else {
        dec_value(s.drop_last()) * 10 + digit_val(s.last())
    }
}

/// Whether `s` is a non-empty string of decimal digits.
pub open spec fn is_dec_string(s: Seq<char>) -> bool {
    s.len() > 0 && forall|i: int| 0 <= i < s.len() ==> is_dec_digit(s[i])
}

/// Extending a digit string never lowers its value.
proof fn lemma_dec_value_prefix(s: Seq<char>, i: int, j: int)
    requires
        0 <= i <= j <= s.len(),
    ensures
        dec_value(s.subrange(0, i)) <= dec_value(s.subrange(0, j)),
    decreases j - i,
{
    if i < j {
        lemma_dec_value_prefix(s, i, j - 1);
        let t = s.subrange(0, j);
        assert(t.drop_last() =~= s.subrange(0, j - 1));
        assert(dec_value(t.drop_last()) * 10 >= dec_value(t.drop_last())) by (nonlinear_arith);
    }
}

/// The one-character string for a decimal digit.
fn digit_str(d: u32) -> (s: &'static str)
    requires
        d < 10,
    ensures
        s@ == seq![digit_char(d as nat)],
{
    let s: &'static str = match d {
        0 => "0",
        1 => "1",
        2 => "2",
        3 => "3",
        4 => "4",
        5 => "5",
        6 => "6",
        7 => "7",
        8 => "8",
        _ => "9",
    };
    proof {
        reveal_strlit("0");
        reveal_strlit("1");
        reveal_strlit("2");
        reveal_strlit("3");
        reveal_strlit("4");
        reveal_strlit("5");
        reveal_strlit("6");
        reveal_strlit("7");
        reveal_strlit("8");
        reveal_strlit("9");
        assert(s@ =~= seq![digit_char(d as nat)]);
    }
    s
}

/// Render `n` in decimal, exactly as [`dec_digits`] describes.
pub fn decimal_string(n: u32) -> (s: String)
    ensures
        s@ == dec_digits(n as nat),
    decreases n,
{
    if n < 10 {
        digit_str(n).to_owned()
    } else {
        let prefix = decimal_string(n / 10);
        prefix.concat(digit_str(n % 10))
    }
}

/// The registry path under which the namespace of process `pid` is
/// published.
pub open spec fn registry_path_chars(pid: nat) -> Seq<char> {
    "/var/run/netns/"@ + dec_digits(pid)
}

/// The kernel-exposed handle of the network namespace of process `pid`.
pub open spec fn proc_ns_path_chars(pid: nat) -> Seq<char> {
    "/proc/"@ + dec_digits(pid) + "/ns/net"@
}

/// The registry path for `pid`: `/var/run/netns/` followed by the pid in
/// decimal.
pub fn registry_path(pid: u32) -> (s: String)
    ensures
        s@ == registry_path_chars(pid as nat),
{
    let base = "/var/run/netns/".to_owned();
    base.concat(decimal_string(pid).as_str())
}

/// The path of the process's namespace handle: `/proc/`, the pid in
/// decimal, then `/ns/net`.
pub fn proc_ns_path(pid: u32) -> (s: String)
    ensures
        s@ == proc_ns_path_chars(pid as nat),
{
    let base = "/proc/".to_owned();
    let with_pid = base.concat(decimal_string(pid).as_str());
    let r = with_pid.concat("/ns/net");
    proof {
        assert(("/proc/"@ + dec_digits(pid as nat)) + "/ns/net"@ =~= proc_ns_path_chars(
            pid as nat,
        ));
    }
    r
}

/// Parse a decimal pid. Returns the value exactly when the whole string is
/// a non-empty run of decimal digits whose value fits; anything else (an
/// empty string, a sign, any other character, a value too large) is no pid.
pub fn parse_pid(s: &str) -> (r: Option<u32>)
    ensures
        r == if is_dec_string(s@) && dec_value(s@) <= u32::MAX {
            Some(dec_value(s@) as u32)
        } else {
            None::<u32>
        },
{
    let len = s.unicode_len();
    if len == 0 {
        return None;
    }
    let mut acc: u32 = 0;
    let mut i: usize = 0;
    while i < len
        invariant
            len == s@.len(),
            0 < len,
            i <= len,
            forall|j: int| 0 <= j < i ==> is_dec_digit(s@[j]),
            acc as nat == dec_value(s@.subrange(0, i as int)),
        decreases len - i,
    {
        let c = s.get_char(i);
        let v = c as u32;
        if v < 48 || v > 57 {
            return None;
        }
        let d = v - 48;
        proof {
            let t = s@.subrange(0, i as int + 1);
            assert(t.drop_last() =~= s@.subrange(0, i as int));
            assert(t.last() == s@[i as int]);
        }
        if acc > (u32::MAX - d) / 10 {
            proof {
                assert(acc as nat * 10 + d as nat > u32::MAX) by (nonlinear_arith)
                    requires
                        acc > (u32::MAX - d) / 10,
                        d <= 9,
                ;
                lemma_dec_value_prefix(s@, i as int + 1, len as int);
                assert(s@.subrange(0, len as int) =~= s@);
            }
            return None;
        }
        proof {
            assert(acc as nat * 10 + d as nat <= u32::MAX) by (nonlinear_arith)
                requires
                    acc <= (u32::MAX - d) / 10,
                    d <= 9,
            ;
        }
        acc = acc * 10 + d;
        i += 1;
    }
    proof {
        assert(s@.subrange(0, len as int) =~= s@);
    }
    Some(acc)
}

/// The decision applied to one directory entry while scanning for pids: an
/// entry counts only if it is of the expected kind (a directory under the
/// process table, a symlink under the registry) and its name is a decimal
/// pid.
pub fn pid_entry(right_kind: bool, name: &str) -> (r: Option<u32>)
    ensures
        r == if right_kind && is_dec_string(name@) && dec_value(name@) <= u32::MAX {
            Some(dec_value(name@) as u32)
        } else {
            None::<u32>
        },
{
    if right_kind {
        parse_pid(name)
    } else {
        None
    }
}

/// The registry entries that no longer name a live process, in registry
/// order.
pub open spec fn stale_view(registry: Seq<u32>, live: Seq<u32>) -> Seq<u32> {
    registry.filter(|p: u32| !live.contains(p))
}

/// Whether `x` occurs in `v`.
fn contains_pid(v: &Vec<u32>, x: u32) -> (b: bool)
    ensures
        b == v@.contains(x),
{
    let mut i: usize = 0;
    while i < v.len()
        invariant
            i <= v@.len(),
            forall|j: int| 0 <= j < i ==> v@[j] != x,
        decreases v@.len() - i,
    {
        if v[i] == x {
            assert(v@[i as int] == x);
            return true;
        }
        i += 1;
    }
    false
}

/// The garbage-collection decision over the namespace registry: given the
/// pids found in the registry and the pids of live processes, the entries
/// to remove are exactly the registry entries whose pid is not live, kept
/// in registry order.
pub fn stale_entries(registry: &Vec<u32>, live: &Vec<u32>) -> (r: Vec<u32>)
    ensures
        r@ == stale_view(registry@, live@),
{
    let mut r: Vec<u32> = Vec::new();
    let mut i: usize = 0;
    proof {
        reveal(Seq::filter);
        assert(registry@.subrange(0, 0).len() == 0);
    }
    while i < registry.len()
        invariant
            i <= registry@.len(),
            r@ == stale_view(registry@.subrange(0, i as int), live@),
        decreases registry@.len() - i,
    {
        let p = registry[i];
        let keep = !contains_pid(live, p);
        proof {
            reveal(Seq::filter);
            let t = registry@.subrange(0, i as int + 1);
            assert(t.drop_last() =~= registry@.subrange(0, i as int));
            assert(t.last() == registry@[i as int]);
            assert(t.len() > 0);
        }
        if keep {
            r.push(p);
        }
        i += 1;
    }
    proof {
        assert(registry@.subrange(0, registry@.len() as int) =~= registry@);
    }
    r
}

} // verus!
