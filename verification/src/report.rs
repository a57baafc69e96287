//! Deterministic textual rendering of the final address report.
//!
//! The report lists every registry member as a `{"index":"address"}` entry
//! followed by the always-included seed address, inside a `["RELAYS",...]`
//! wrapper.

use vstd::prelude::*;
use vstd::string::StringExecFns;

verus! {

/// Character for one decimal digit.
pub open spec fn digit_char(d: nat) -> char {
    if d == 0 {
        '0'
    } else if d == 1 {
        '1'
    } else if d == 2 {
        '2'
    } else if d == 3 {
        '3'
    } else if d == 4 {
        '4'
    } else if d == 5 {
        '5'
    } else if d == 6 {
        '6'
    } else if d == 7 {
        '7'
    } else if d == 8 {
        '8'
    } else {
        '9'
    }
}

/// Decimal rendering of a natural number, most significant digit first.
pub open spec fn dec_spec(n: nat) -> Seq<char>
    decreases n,
{
    if n < 10 {
        seq![digit_char(n)]
    } else {
        dec_spec(n / 10).push(digit_char(n % 10))
    }
}

/// One report entry: the index and the address as a quoted pair.
pub open spec fn entry_spec(i: nat, addr: Seq<char>) -> Seq<char> {
    "{\""@ + dec_spec(i) + "\":\""@ + addr + "\"}"@
}

/// All registry entries in order, each followed by a comma.
pub open spec fn entries_spec(addrs: Seq<Seq<char>>) -> Seq<char>
    decreases addrs.len(),
{
    if addrs.len() == 0 {
        Seq::<char>::empty()
    } else {
        entries_spec(addrs.drop_last()) + entry_spec((addrs.len() - 1) as nat, addrs.last())
            + ","@
    }
}

/// The whole report text for the given members and seed address.
pub open spec fn report_spec(addrs: Seq<Seq<char>>, seed: Seq<char>) -> Seq<char> {
    "[\"RELAYS\","@ + entries_spec(addrs) + entry_spec(addrs.len(), seed) + "]"@
}

/// The one-character string for a decimal digit.
fn digit_str(d: u64) -> (r: &'static str)
    requires
        d < 10,
    ensures
        r@ == seq![digit_char(d as nat)],
{
    proof {
        reveal_strlit("0");
        reveal_strlit("1");
        reveal_strlit("2");
        reveal_strlit("3");
        reveal_strlit("4");
        reveal_strlit("5");
        reveal_strlit("6");
        reveal_strlit("7");
        reveal_strlit("8");
        reveal_strlit("9");
    }
    let r: &'static str = if d == 0 {
        "0"
    } else if d == 1 {
        "1"
    } else if d == 2 {
        "2"
    } else if d == 3 {
        "3"
    } else if d == 4 {
        "4"
    } else if d == 5 {
        "5"
    } else if d == 6 {
        "6"
    } else if d == 7 {
        "7"
    } else if d == 8 {
        "8"
    } else {
        "9"
    };
    proof {
        assert(r@ =~= seq![digit_char(d as nat)]);
    }
    r
}

/// Decimal rendering of `n`.
pub fn u64_to_dec(n: u64) -> (r: String)
    ensures
        r@ == dec_spec(n as nat),
    decreases n,
{
    if n < 10 {
        digit_str(n).to_owned()
    } else {
        proof {
            assert(n / 10 < n) by (nonlinear_arith)
                requires
                    n >= 10,
            ;
        }
        let mut s = u64_to_dec(n / 10);
        s.append(digit_str(n % 10));
        proof {
            assert(s@ =~= dec_spec(n as nat));
        }
        s
    }
}

/// Appends one `{"index":"address"}` entry to the report under construction.
fn append_entry(s: &mut String, i: u64, addr: &str)
    ensures
        final(s)@ == old(s)@ + entry_spec(i as nat, addr@),
{
    s.append("{\"");
    let num = u64_to_dec(i);
    s.append(num.as_str());
    s.append("\":\"");
    s.append(addr);
    s.append("\"}");
    proof {
        assert(s@ =~= old(s)@ + entry_spec(i as nat, addr@));
    }
}

/// Renders the report text for the given members and seed address.
pub fn render_report(addrs: &Vec<String>, seed: &str) -> (r: String)
    ensures
        r@ == report_spec(addrs.deep_view(), seed@),
{
    let ghost dv = addrs.deep_view();
    let mut s = String::from_str("[\"RELAYS\",");
    let mut i: usize = 0;
    while i < addrs.len()
        invariant
            i <= addrs.len(),
            dv == addrs.deep_view(),
            dv.len() == addrs@.len(),
            s@ == "[\"RELAYS\","@ + entries_spec(dv.take(i as int)),
        decreases addrs.len() - i,
    {
        proof {
            assert(dv[i as int] == addrs@[i as int]@);
        }
        append_entry(&mut s, i as u64, addrs[i].as_str());
        s.append(",");
        proof {
            let t = dv.take(i + 1 as int);
            assert(t.drop_last() =~= dv.take(i as int));
            assert(t.last() == dv[i as int]);
            assert(entries_spec(t) == entries_spec(dv.take(i as int)) + entry_spec(
                i as nat,
                dv[i as int],
            ) + ","@);
            assert(s@ =~= "[\"RELAYS\","@ + entries_spec(dv.take(i + 1 as int)));
        }
        i += 1;
    }
    proof {
        assert(dv.take(i as int) =~= dv);
    }
    append_entry(&mut s, addrs.len() as u64, seed);
    s.append("]");
    proof {
        assert(s@ =~= report_spec(dv, seed@));
    }
    s
}

} // verus!
