//! The backtrace printer's pure core: renders a captured, resolved frame
//! sequence into the exact report text, one numbered line per frame with an
//! optional indented source-location line, under a fixed header line.
use vstd::prelude::*;
use vstd::string::StringExecFns;

use crate::symbol::{display_name_spec, SourceLocation, SymbolRecord};

verus! {

/// The decimal digit character for `d`.
pub open spec fn digit_char(d: nat) -> char {
    if d == 0 {
        '0'
    } else if d == 1 {
        '1'
    } else if d == 2 {
        '2'
    } else if d == 3 {
        '3'
    } else if d == 4 {
        '4'
    } else if d == 5 {
        '5'
    } else if d == 6 {
        '6'
    } else if d == 7 {
        '7'
    } else if d == 8 {
        '8'
    } else {
        '9'
    }
}

/// The usual decimal rendering of `n`: no sign, no leading zero except for
/// `n == 0` itself.
pub open spec fn dec_digits(n: nat) -> Seq<char>
    decreases n,
{
    if n < 10 {
        seq![digit_char(n)]
    } else {
        dec_digits(n / 10).push(digit_char(n % 10))
    }
}

fn digit_str(d: u64) -> (s: &'static str)
    requires
        d < 10,
    ensures
        s@ == seq![digit_char(d as nat)],
{
    if d == 0 {
        proof {
            reveal_strlit("0");
            assert("0"@ =~= seq![digit_char(0)]);
        }
        "0"
    } else if d == 1 {
        proof {
            reveal_strlit("1");
            assert("1"@ =~= seq![digit_char(1)]);
        }
        "1"
    } else if d == 2 {
        proof {
            reveal_strlit("2");
            assert("2"@ =~= seq![digit_char(2)]);
        }
        "2"
    } else if d == 3 {
        proof {
            reveal_strlit("3");
            assert("3"@ =~= seq![digit_char(3)]);
        }
        "3"
    } else if d == 4 {
        proof {
            reveal_strlit("4");
            assert("4"@ =~= seq![digit_char(4)]);
        }
        "4"
    } else if d == 5 {
        proof {
            reveal_strlit("5");
            assert("5"@ =~= seq![digit_char(5)]);
        }
        "5"
    } else if d == 6 {
        proof {
            reveal_strlit("6");
            assert("6"@ =~= seq![digit_char(6)]);
        }
        "6"
    } else if d == 7 {
        proof {
            reveal_strlit("7");
            assert("7"@ =~= seq![digit_char(7)]);
        }
        "7"
    } else if d == 8 {
        proof {
            reveal_strlit("8");
            assert("8"@ =~= seq![digit_char(8)]);
        }
        "8"
    } else {
        proof {
            reveal_strlit("9");
            assert("9"@ =~= seq![digit_char(9)]);
        }
        "9"
    }
}

/// Renders `n` in decimal.
pub fn decimal_string(n: u64) -> (s: String)
    ensures
        s@ == dec_digits(n as nat),
    decreases n,
{
    if n < 10 {
        String::from_str(digit_str(n))
    } else {
        let mut s = decimal_string(n / 10);
        s.append(digit_str(n % 10));
        proof {
            assert(s@ =~= dec_digits((n / 10) as nat).push(digit_char((n % 10) as nat)));
        }
        s
    }
}

/// The optional continuation line for a frame's source location:
/// eight spaces, `at `, the file path, a colon, and the line number.
pub open spec fn location_suffix_spec(r: SymbolRecord) -> Seq<char> {
    match r.location {
        Option::Some(loc) => "        at "@ + loc.file@ + ":"@ + dec_digits(loc.line as nat)
            + "\n"@,
        Option::None => Seq::empty(),
    }
}

/// The full report text for frame index `i`: the numbered name line, then
/// the location line if one resolved.
pub open spec fn entry_spec(i: nat, r: SymbolRecord) -> Seq<char> {
    dec_digits(i) + ": "@ + display_name_spec(r) + "\n"@ + location_suffix_spec(r)
}

/// The concatenated entries for the first `n` records, in capture order.
pub open spec fn report_prefix_spec(rs: Seq<SymbolRecord>, n: int) -> Seq<char>
    decreases n,
{
    if n <= 0 {
        Seq::empty()
    } else {
        report_prefix_spec(rs, n - 1) + entry_spec((n - 1) as nat, rs[n - 1])
    }
}

/// The whole report: the header line, then every frame's entry, innermost
/// frame first.
pub open spec fn report_spec(rs: Seq<SymbolRecord>) -> Seq<char> {
    "Stack Overflow:\n"@ + report_prefix_spec(rs, rs.len() as int)
}

fn render_location_line(loc: &SourceLocation) -> (s: String)
    ensures
        s@ == "        at "@ + loc.file@ + ":"@ + dec_digits(loc.line as nat) + "\n"@,
{
    let mut s = String::from_str("        at ");
    s.append(loc.file.as_str());
    s.append(":");
    let ln = decimal_string(loc.line as u64);
    s.append(ln.as_str());
    s.append("\n");
    proof {
        assert(s@ =~= "        at "@ + loc.file@ + ":"@ + dec_digits(loc.line as nat) + "\n"@);
    }
    s
}

/// Renders the report text for the frame at index `i`.
pub fn render_entry(i: u64, r: &SymbolRecord) -> (s: String)
    ensures
        s@ == entry_spec(i as nat, *r),
{
    let mut s = decimal_string(i);
    s.append(": ");
    s.append(r.display_name());
    s.append("\n");
    proof {
        assert(s@ =~= dec_digits(i as nat) + ": "@ + display_name_spec(*r) + "\n"@);
    }
    match &r.location {
        Some(loc) => {
            let line = render_location_line(loc);
            s.append(line.as_str());
        },
        None => {
            proof {
                assert(s@ =~= s@ + location_suffix_spec(*r));
            }
        },
    }
    proof {
        assert(s@ =~= entry_spec(i as nat, *r));
    }
    s
}

/// Renders the resolved frames into the report text, exactly as
/// `report_spec` describes it.
pub fn render_report(records: &Vec<SymbolRecord>) -> (s: String)
    ensures
        s@ == report_spec(records@),
{
    let mut s = String::from_str("Stack Overflow:\n");
    let mut i: usize = 0;
    while i < records.len()
        invariant
            i <= records.len(),
            s@ == "Stack Overflow:\n"@ + report_prefix_spec(records@, i as int),
        decreases records.len() - i,
    {
        let entry = render_entry(i as u64, &records[i]);
        s.append(entry.as_str());
        proof {
            assert(s@ =~= "Stack Overflow:\n"@ + report_prefix_spec(records@, i as int + 1));
        }
        i = i + 1;
    }
    s
}

/// The report always begins with the literal header line
/// `Stack Overflow:` followed by a newline, whatever the frames are.
pub proof fn lemma_report_starts_with_header(rs: Seq<SymbolRecord>)
    ensures
        report_spec(rs).len() >= "Stack Overflow:\n"@.len(),
        report_spec(rs).subrange(0, "Stack Overflow:\n"@.len() as int) == "Stack Overflow:\n"@,
{
    assert(report_spec(rs).subrange(0, "Stack Overflow:\n"@.len() as int)
        =~= "Stack Overflow:\n"@);
}

/// An address with no symbol information at all yields exactly the numbered
/// `<unknown>` line and no location line.
pub proof fn lemma_unresolved_entry(i: nat, r: SymbolRecord)
    requires
        r.name is None,
        r.location is None,
    ensures
        entry_spec(i, r) == dec_digits(i) + ": "@ + "<unknown>"@ + "\n"@,
{
    assert(entry_spec(i, r) =~= dec_digits(i) + ": "@ + "<unknown>"@ + "\n"@);
}

} // verus!
