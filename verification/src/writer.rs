//! Rendering records as delimited rows and deciding each symbol's output
//! path. The caller appends the rendered text to the file and flushes once
//! per page; rendering distributes over concatenation, so separate append
//! calls leave exactly the rows of the combined batch, in call order.

use vstd::prelude::*;
use vstd::string::*;

use crate::digits::{append_i64, append_u64, digit_char, i64_dec_str, u64_dec_str};
use crate::error::Error;
use crate::stream::StreamItem;
use crate::types::{timespan_name, AggregateRecord, Timespan};

verus! {

/// The text of a boolean field as a row carries it.
pub open spec fn bool_str(b: bool) -> Seq<char> {
    if b {
        "true"@
    } else {
        "false"@
    }
}

/// One record's row: the six fixed columns in order — timestamp, open,
/// high, low, close, volume — then each optional column only when its
/// field is set, in the order transactions, otc, vwap, then a line break.
/// An unset optional field leaves no empty placeholder behind.
pub open spec fn row_str(r: AggregateRecord) -> Seq<char> {
    i64_dec_str(r.timestamp as int) + ","@ + r.open@ + ","@ + r.high@ + ","@ + r.low@ + ","@
        + r.close@ + ","@ + r.volume@ + (match r.transactions {
        Some(n) => ","@ + u64_dec_str(n as nat),
        None => Seq::<char>::empty(),
    }) + (match r.otc {
        Some(b) => ","@ + bool_str(b),
        None => Seq::<char>::empty(),
    }) + (match r.vwap {
        Some(v) => ","@ + v@,
        None => Seq::<char>::empty(),
    }) + "\n"@
}

/// The rows of a batch of records, one after the other, in batch order.
pub open spec fn rows_str(rs: Seq<AggregateRecord>) -> Seq<char>
    decreases rs.len(),
{
    if rs.len() == 0 {
        Seq::<char>::empty()
    } else {
        row_str(rs[0]) + rows_str(rs.drop_first())
    }
}

/// Law: rendering distributes over concatenation. Appending the rendered
/// rows of one batch and then of another leaves exactly the rows of the
/// combined batch: separate append calls to the same file keep both
/// batches, in call order.
pub proof fn lemma_rows_append(a: Seq<AggregateRecord>, b: Seq<AggregateRecord>)
    ensures
        rows_str(a + b) == rows_str(a) + rows_str(b),
    decreases a.len(),
{
    if a.len() == 0 {
        assert(a + b =~= b);
        assert(rows_str(a) =~= Seq::<char>::empty());
        assert(rows_str(a) + rows_str(b) =~= rows_str(b));
    } else {
        lemma_rows_append(a.drop_first(), b);
        assert((a + b).drop_first() =~= a.drop_first() + b);
        assert((a + b)[0] == a[0]);
        assert(rows_str(a + b) =~= rows_str(a) + rows_str(b));
    }
}

/// Rendering one more record appends exactly its row.
pub proof fn lemma_rows_push(rs: Seq<AggregateRecord>, r: AggregateRecord)
    ensures
        rows_str(rs.push(r)) == rows_str(rs) + row_str(r),
{
    lemma_rows_append(rs, seq![r]);
    assert(rs.push(r) =~= rs + seq![r]);
    assert(seq![r].drop_first() =~= Seq::<AggregateRecord>::empty());
    assert(rows_str(seq![r].drop_first()) == Seq::<char>::empty());
    assert(rows_str(seq![r]) =~= row_str(r));
}

/// Renders one record as its row text.
pub fn render_row(r: &AggregateRecord) -> (s: String)
    ensures
        s@ == row_str(*r),
{
    let mut s = String::new();
    append_i64(&mut s, r.timestamp);
    s.append(",");
    s.append(r.open.as_str());
    s.append(",");
    s.append(r.high.as_str());
    s.append(",");
    s.append(r.low.as_str());
    s.append(",");
    s.append(r.close.as_str());
    s.append(",");
    s.append(r.volume.as_str());
    match r.transactions {
        Some(n) => {
            s.append(",");
            append_u64(&mut s, n as u64);
        },
        None => {},
    }
    match r.otc {
        Some(b) => {
            s.append(",");
            if b {
                s.append("true");
            } else {
                s.append("false");
            }
        },
        None => {},
    }
    match &r.vwap {
        Some(v) => {
            s.append(",");
            s.append(v.as_str());
        },
        None => {},
    }
    s.append("\n");
    proof {
        assert(s@ =~= row_str(*r));
    }
    s
}

/// Renders a batch of records as consecutive rows, in batch order.
pub fn render_rows(records: &Vec<AggregateRecord>) -> (s: String)
    ensures
        s@ == rows_str(records@),
{
    let mut s = String::new();
    let mut i: usize = 0;
    while i < records.len()
        invariant
            i <= records.len(),
            s@ == rows_str(records@.take(i as int)),
        decreases records.len() - i,
    {
        let row = render_row(&records[i]);
        s.append(row.as_str());
        proof {
            lemma_rows_push(records@.take(i as int), records@[i as int]);
            assert(records@.take(i as int).push(records@[i as int]) =~= records@.take(
                i as int + 1,
            ));
        }
        i = i + 1;
    }
    proof {
        assert(records@.take(records@.len() as int) =~= records@);
    }
    s
}

/// The deterministic output path of one symbol's file: the bucket name,
/// rendered lowercase, inside the symbol's folder under the output root.
pub open spec fn path_model(root: Seq<char>, ticker: Seq<char>, t: Timespan) -> Seq<char> {
    root + "/"@ + ticker + "/"@ + timespan_name(t) + ".csv"@
}

/// The per-symbol output path under the output root.
pub fn output_file_path(root: &str, ticker: &str, t: Timespan) -> (p: String)
    ensures
        p@ == path_model(root@, ticker@, t),
{
    let mut s = String::new();
    s.append(root);
    s.append("/");
    s.append(ticker);
    s.append("/");
    s.append(t.as_str());
    s.append(".csv");
    proof {
        assert(s@ =~= path_model(root@, ticker@, t));
    }
    s
}

/// What one emitted stream element asks of the persistence layer.
#[derive(Clone, PartialEq, Eq, Debug)]
pub enum PageAction {
    /// An empty page: note it and write nothing.
    Skip,
    /// A full page: append this text to the symbol's file, then flush.
    Append(String),
    /// A failure: stop this symbol's pipeline with the error.
    Halt(Error),
}

/// Decides what the writer does with one emitted stream element: an empty
/// page writes nothing, a full page appends exactly its rendered rows and
/// is flushed, and an error halts the symbol's pipeline, writing nothing.
pub fn page_action(item: StreamItem) -> (a: PageAction)
    ensures
        item matches Ok(rs) ==> if rs@.len() == 0 {
            a is Skip
        } else {
            a matches PageAction::Append(s) && s@ == rows_str(rs@)
        },
        item matches Err(e) ==> a == PageAction::Halt(e),
{
    match item {
        Ok(records) => {
            if records.len() == 0 {
                PageAction::Skip
            } else {
                PageAction::Append(render_rows(&records))
            }
        },
        Err(e) => PageAction::Halt(e),
    }
}

/// How many times `c` occurs in `s`.
pub open spec fn count_char(s: Seq<char>, c: char) -> int
    decreases s.len(),
{
    if s.len() == 0 {
        0
    } else {
        count_char(s.drop_first(), c) + if s[0] == c {
            1int
        } else {
            0int
        }
    }
}

/// Occurrences add up over concatenation.
pub proof fn lemma_count_concat(a: Seq<char>, b: Seq<char>, c: char)
    ensures
        count_char(a + b, c) == count_char(a, c) + count_char(b, c),
    decreases a.len(),
{
    if a.len() == 0 {
        assert(a + b =~= b);
        assert(count_char(a, c) == 0);
    } else {
        lemma_count_concat(a.drop_first(), b, c);
        assert((a + b).drop_first() =~= a.drop_first() + b);
        assert((a + b)[0] == a[0]);
        assert(count_char(a + b, c) == count_char(a, c) + count_char(b, c));
    }
}

/// A sequence free of `c` holds no occurrence of it.
pub proof fn lemma_count_absent(s: Seq<char>, c: char)
    requires
        forall|i: int| 0 <= i < s.len() ==> s[i] != c,
    ensures
        count_char(s, c) == 0,
    decreases s.len(),
{
    if s.len() > 0 {
        lemma_count_absent(s.drop_first(), c);
    }
}

/// A field's text is row-safe: free of the delimiter and of line breaks.
pub open spec fn field_ok(s: Seq<char>) -> bool {
    forall|i: int| 0 <= i < s.len() ==> s[i] != ',' && s[i] != '\n' && s[i] != '\r'
}

/// Every textual field of the record is row-safe. Price texts written as
/// plain base-ten decimals always are.
pub open spec fn record_fields_ok(r: AggregateRecord) -> bool {
    &&& field_ok(r.open@)
    &&& field_ok(r.high@)
    &&& field_ok(r.low@)
    &&& field_ok(r.close@)
    &&& field_ok(r.volume@)
    &&& (r.vwap matches Some(v) ==> field_ok(v@))
}

/// Digit runs carry neither delimiters nor line breaks.
proof fn lemma_dec_str_field_ok(n: nat)
    ensures
        field_ok(u64_dec_str(n)),
    decreases n,
{
    if n < 10 {
        assert(u64_dec_str(n) == seq![digit_char(n as int)]);
    } else {
        lemma_dec_str_field_ok(n / 10);
        assert forall|i: int| 0 <= i < u64_dec_str(n).len() implies u64_dec_str(n)[i] != ','
            && u64_dec_str(n)[i] != '\n' && u64_dec_str(n)[i] != '\r' by {
            if i < u64_dec_str(n / 10).len() {
                assert(u64_dec_str(n)[i] == u64_dec_str(n / 10)[i]);
            } else {
                assert(u64_dec_str(n)[i] == digit_char((n % 10) as int));
            }
        }
    }
}

/// Signed decimal text is row-safe too.
proof fn lemma_i64_dec_str_field_ok(n: int)
    ensures
        field_ok(i64_dec_str(n)),
{
    if n >= 0 {
        lemma_dec_str_field_ok(n as nat);
    } else {
        lemma_dec_str_field_ok((-n) as nat);
        assert forall|i: int| 0 <= i < i64_dec_str(n).len() implies i64_dec_str(n)[i] != ','
            && i64_dec_str(n)[i] != '\n' && i64_dec_str(n)[i] != '\r' by {
            if i == 0 {
                assert(i64_dec_str(n)[0] == '-');
            } else {
                assert(i64_dec_str(n)[i] == u64_dec_str((-n) as nat)[i - 1]);
            }
        }
    }
}

/// The single delimiter holds exactly one comma.
proof fn lemma_comma_count()
    ensures
        count_char(","@, ',') == 1,
{
    reveal_strlit(",");
    assert((","@).len() == 1);
    assert((","@)[0] == ',');
    assert((","@).drop_first() =~= Seq::<char>::empty());
    assert(count_char((","@).drop_first(), ',') == 0);
}

/// A row-safe piece holds no comma.
proof fn lemma_field_no_comma(s: Seq<char>)
    requires
        field_ok(s),
    ensures
        count_char(s, ',') == 0,
{
    lemma_count_absent(s, ',');
}

/// Law: with row-safe field texts, a record's row holds one comma per
/// column boundary — five for the six fixed columns, and one more for each
/// optional field that is set. An optional column is present in the row
/// exactly when its field is set.
pub proof fn lemma_row_columns(r: AggregateRecord)
    requires
        record_fields_ok(r),
    ensures
        count_char(row_str(r), ',') == 5 + (if r.transactions is Some {
            1int
        } else {
            0int
        }) + (if r.otc is Some {
            1int
        } else {
            0int
        }) + (if r.vwap is Some {
            1int
        } else {
            0int
        }),
{
    lemma_comma_count();
    lemma_i64_dec_str_field_ok(r.timestamp as int);
    lemma_field_no_comma(i64_dec_str(r.timestamp as int));
    lemma_field_no_comma(r.open@);
    lemma_field_no_comma(r.high@);
    lemma_field_no_comma(r.low@);
    lemma_field_no_comma(r.close@);
    lemma_field_no_comma(r.volume@);
    reveal_strlit("true");
    reveal_strlit("false");
    reveal_strlit("\n");
    assert(field_ok("true"@)) by {
        assert(("true"@).len() == 4);
        assert(("true"@)[0] == 't' && ("true"@)[1] == 'r' && ("true"@)[2] == 'u' && ("true"@)[3]
            == 'e');
    }
    assert(field_ok("false"@)) by {
        assert(("false"@).len() == 5);
        assert(("false"@)[0] == 'f' && ("false"@)[1] == 'a' && ("false"@)[2] == 'l' && ("false"@)[3]
            == 's' && ("false"@)[4] == 'e');
    }
    assert(count_char("\n"@, ',') == 0) by {
        assert(("\n"@).len() == 1);
        assert(("\n"@)[0] == '\n');
        assert(("\n"@).drop_first() =~= Seq::<char>::empty());
        assert(count_char(("\n"@).drop_first(), ',') == 0);
    }
    let head = i64_dec_str(r.timestamp as int) + ","@ + r.open@ + ","@ + r.high@ + ","@ + r.low@
        + ","@ + r.close@ + ","@ + r.volume@;
    assert(count_char(head, ',') == 5) by {
        lemma_count_concat(i64_dec_str(r.timestamp as int), ","@, ',');
        lemma_count_concat(i64_dec_str(r.timestamp as int) + ","@, r.open@, ',');
        lemma_count_concat(i64_dec_str(r.timestamp as int) + ","@ + r.open@, ","@, ',');
        lemma_count_concat(i64_dec_str(r.timestamp as int) + ","@ + r.open@ + ","@, r.high@, ',');
        lemma_count_concat(
            i64_dec_str(r.timestamp as int) + ","@ + r.open@ + ","@ + r.high@,
            ","@,
            ',',
        );
        lemma_count_concat(
            i64_dec_str(r.timestamp as int) + ","@ + r.open@ + ","@ + r.high@ + ","@,
            r.low@,
            ',',
        );
        lemma_count_concat(
            i64_dec_str(r.timestamp as int) + ","@ + r.open@ + ","@ + r.high@ + ","@ + r.low@,
            ","@,
            ',',
        );
        lemma_count_concat(
            i64_dec_str(r.timestamp as int) + ","@ + r.open@ + ","@ + r.high@ + ","@ + r.low@
                + ","@,
            r.close@,
            ',',
        );
        lemma_count_concat(
            i64_dec_str(r.timestamp as int) + ","@ + r.open@ + ","@ + r.high@ + ","@ + r.low@ + ","@
                + r.close@,
            ","@,
            ',',
        );
        lemma_count_concat(
            i64_dec_str(r.timestamp as int) + ","@ + r.open@ + ","@ + r.high@ + ","@ + r.low@ + ","@
                + r.close@ + ","@,
            r.volume@,
            ',',
        );
    }
    let tpart = match r.transactions {
        Some(n) => ","@ + u64_dec_str(n as nat),
        None => Seq::<char>::empty(),
    };
    assert(count_char(tpart, ',') == if r.transactions is Some {
        1int
    } else {
        0int
    }) by {
        match r.transactions {
            Some(n) => {
                lemma_dec_str_field_ok(n as nat);
                lemma_field_no_comma(u64_dec_str(n as nat));
                lemma_count_concat(","@, u64_dec_str(n as nat), ',');
            },
            None => {},
        }
    }
    let opart = match r.otc {
        Some(b) => ","@ + bool_str(b),
        None => Seq::<char>::empty(),
    };
    assert(count_char(opart, ',') == if r.otc is Some {
        1int
    } else {
        0int
    }) by {
        match r.otc {
            Some(b) => {
                lemma_field_no_comma(bool_str(b));
                lemma_count_concat(","@, bool_str(b), ',');
            },
            None => {},
        }
    }
    let vpart = match r.vwap {
        Some(v) => ","@ + v@,
        None => Seq::<char>::empty(),
    };
    assert(count_char(vpart, ',') == if r.vwap is Some {
        1int
    } else {
        0int
    }) by {
        match r.vwap {
            Some(v) => {
                lemma_field_no_comma(v@);
                lemma_count_concat(","@, v@, ',');
            },
            None => {},
        }
    }
    lemma_count_concat(head, tpart, ',');
    lemma_count_concat(head + tpart, opart, ',');
    lemma_count_concat(head + tpart + opart, vpart, ',');
    lemma_count_concat(head + tpart + opart + vpart, "\n"@, ',');
    assert(row_str(r) =~= head + tpart + opart + vpart + "\n"@);
}

/// Law: with row-safe field texts, one record renders as exactly one line:
/// its row holds a single line break, and it stands at the end.
pub proof fn lemma_row_single_line(r: AggregateRecord)
    requires
        record_fields_ok(r),
    ensures
        count_char(row_str(r), '\n') == 1,
        row_str(r).len() > 0,
        row_str(r).last() == '\n',
{
    lemma_i64_dec_str_field_ok(r.timestamp as int);
    lemma_count_absent(i64_dec_str(r.timestamp as int), '\n');
    lemma_count_absent(r.open@, '\n');
    lemma_count_absent(r.high@, '\n');
    lemma_count_absent(r.low@, '\n');
    lemma_count_absent(r.close@, '\n');
    lemma_count_absent(r.volume@, '\n');
    reveal_strlit(",");
    reveal_strlit("true");
    reveal_strlit("false");
    reveal_strlit("\n");
    assert(count_char(","@, '\n') == 0) by {
        assert((","@).len() == 1);
        assert((","@)[0] == ',');
        assert((","@).drop_first() =~= Seq::<char>::empty());
        assert(count_char((","@).drop_first(), '\n') == 0);
    }
    assert(count_char("\n"@, '\n') == 1) by {
        assert(("\n"@).len() == 1);
        assert(("\n"@)[0] == '\n');
        assert(("\n"@).drop_first() =~= Seq::<char>::empty());
        assert(count_char(("\n"@).drop_first(), '\n') == 0);
    }
    let head = i64_dec_str(r.timestamp as int) + ","@ + r.open@ + ","@ + r.high@ + ","@ + r.low@
        + ","@ + r.close@ + ","@ + r.volume@;
    assert(count_char(head, '\n') == 0) by {
        lemma_count_concat(i64_dec_str(r.timestamp as int), ","@, '\n');
        lemma_count_concat(i64_dec_str(r.timestamp as int) + ","@, r.open@, '\n');
        lemma_count_concat(i64_dec_str(r.timestamp as int) + ","@ + r.open@, ","@, '\n');
        lemma_count_concat(i64_dec_str(r.timestamp as int) + ","@ + r.open@ + ","@, r.high@, '\n');
        lemma_count_concat(
            i64_dec_str(r.timestamp as int) + ","@ + r.open@ + ","@ + r.high@,
            ","@,
            '\n',
        );
        lemma_count_concat(
            i64_dec_str(r.timestamp as int) + ","@ + r.open@ + ","@ + r.high@ + ","@,
            r.low@,
            '\n',
        );
        lemma_count_concat(
            i64_dec_str(r.timestamp as int) + ","@ + r.open@ + ","@ + r.high@ + ","@ + r.low@,
            ","@,
            '\n',
        );
        lemma_count_concat(
            i64_dec_str(r.timestamp as int) + ","@ + r.open@ + ","@ + r.high@ + ","@ + r.low@
                + ","@,
            r.close@,
            '\n',
        );
        lemma_count_concat(
            i64_dec_str(r.timestamp as int) + ","@ + r.open@ + ","@ + r.high@ + ","@ + r.low@ + ","@
                + r.close@,
            ","@,
            '\n',
        );
        lemma_count_concat(
            i64_dec_str(r.timestamp as int) + ","@ + r.open@ + ","@ + r.high@ + ","@ + r.low@ + ","@
                + r.close@ + ","@,
            r.volume@,
            '\n',
        );
    }
    let tpart = match r.transactions {
        Some(n) => ","@ + u64_dec_str(n as nat),
        None => Seq::<char>::empty(),
    };
    assert(count_char(tpart, '\n') == 0) by {
        match r.transactions {
            Some(n) => {
                lemma_dec_str_field_ok(n as nat);
                lemma_count_absent(u64_dec_str(n as nat), '\n');
                lemma_count_concat(","@, u64_dec_str(n as nat), '\n');
            },
            None => {},
        }
    }
    let opart = match r.otc {
        Some(b) => ","@ + bool_str(b),
        None => Seq::<char>::empty(),
    };
    assert(count_char(opart, '\n') == 0) by {
        match r.otc {
            Some(b) => {
                assert(field_ok(bool_str(b))) by {
                    assert(("true"@).len() == 4);
                    assert(("true"@)[0] == 't' && ("true"@)[1] == 'r' && ("true"@)[2] == 'u' && (
                    "true"@)[3] == 'e');
                    assert(("false"@).len() == 5);
                    assert(("false"@)[0] == 'f' && ("false"@)[1] == 'a' && ("false"@)[2] == 'l' && (
                    "false"@)[3] == 's' && ("false"@)[4] == 'e');
                }
                lemma_count_absent(bool_str(b), '\n');
                lemma_count_concat(","@, bool_str(b), '\n');
            },
            None => {},
        }
    }
    let vpart = match r.vwap {
        Some(v) => ","@ + v@,
        None => Seq::<char>::empty(),
    };
    assert(count_char(vpart, '\n') == 0) by {
        match r.vwap {
            Some(v) => {
                lemma_count_absent(v@, '\n');
                lemma_count_concat(","@, v@, '\n');
            },
            None => {},
        }
    }
    lemma_count_concat(head, tpart, '\n');
    lemma_count_concat(head + tpart, opart, '\n');
    lemma_count_concat(head + tpart + opart, vpart, '\n');
    lemma_count_concat(head + tpart + opart + vpart, "\n"@, '\n');
    assert(row_str(r) =~= head + tpart + opart + vpart + "\n"@);
    assert(row_str(r).last() == ("\n"@)[0]);
}

/// Law: a batch of records renders as exactly as many lines as it has
/// records — rows never merge and never split, so separate appends leave
/// one line per record, in call order.
pub proof fn lemma_rows_line_count(rs: Seq<AggregateRecord>)
    requires
        forall|i: int| 0 <= i < rs.len() ==> record_fields_ok(#[trigger] rs[i]),
    ensures
        count_char(rows_str(rs), '\n') == rs.len(),
    decreases rs.len(),
{
    if rs.len() == 0 {
        assert(count_char(rows_str(rs), '\n') == 0);
    } else {
        lemma_row_single_line(rs[0]);
        assert(forall|i: int|
            0 <= i < rs.drop_first().len() ==> record_fields_ok(#[trigger] rs.drop_first()[i]));
        lemma_rows_line_count(rs.drop_first());
        lemma_count_concat(row_str(rs[0]), rows_str(rs.drop_first()), '\n');
    }
}

} // verus!
