//! Quoting of single fields in comma-separated export, and the inverse parse.
use vstd::prelude::*;
use vstd::string::StrSliceExecFns;
use crate::text::push_char;

verus! {

/// A character that forces a field to be quoted.
pub open spec fn is_special(c: char) -> bool {
    c == ',' || c == '"' || c == '\n'
}

/// Whether a field holds a comma, a quote or a newline.
pub open spec fn needs_quoting(s: Seq<char>) -> bool {
    exists|i: int| 0 <= i < s.len() && is_special(#[trigger] s[i])
}

/// A character with quotes doubled.
pub open spec fn doubled(c: char) -> Seq<char> {
    if c == '"' { seq!['"', '"'] } else { seq![c] }
}

/// Text with every quote doubled.
pub open spec fn double_quotes(s: Seq<char>) -> Seq<char>
    decreases s.len(),
{
    if s.len() == 0 {
        Seq::empty()
    } else {
        double_quotes(s.drop_last()) + doubled(s.last())
    }
}

/// A field as it is written: wrapped in quotes with inner quotes doubled when it
/// holds a comma, quote or newline, and unchanged otherwise.
pub open spec fn escape_of(s: Seq<char>) -> Seq<char> {
    if needs_quoting(s) {
        seq!['"'] + double_quotes(s) + seq!['"']
    } else {
        s
    }
}

/// Text with each pair of quotes read as one quote, from the front.
pub open spec fn undouble(s: Seq<char>) -> Seq<char>
    decreases s.len(),
{
    if s.len() == 0 {
        Seq::empty()
    } else if s.len() >= 2 && s[0] == '"' && s[1] == '"' {
        seq!['"'] + undouble(s.skip(2))
    } else {
        seq![s[0]] + undouble(s.skip(1))
    }
}

/// Whether written field text is quoted.
pub open spec fn is_quoted(t: Seq<char>) -> bool {
    t.len() >= 2 && t[0] == '"' && t[t.len() - 1] == '"'
}

/// A written field read back: quotes stripped and pairs of quotes undone when
/// it is quoted, unchanged otherwise.
pub open spec fn unescape_of(t: Seq<char>) -> Seq<char> {
    if is_quoted(t) {
        undouble(t.subrange(1, t.len() - 1))
    } else {
        t
    }
}

/// Quotes a field for comma-separated output when it holds a comma, a quote or a
/// newline, doubling the quotes inside; leaves it as it is otherwise.
pub fn escape_csv(text: &str) -> (r: String)
    ensures
        r@ == escape_of(text@),
{
    let n = text.unicode_len();
    let mut special = false;
    let mut i: usize = 0;
    while i < n
        invariant
            n == text@.len(),
            i <= n,
            special == exists|j: int| 0 <= j < i && is_special(#[trigger] text@[j]),
        decreases n - i,
    {
        let c = text.get_char(i);
        if c == ',' || c == '"' || c == '\n' {
            special = true;
        }
        i = i + 1;
    }
    if !special {
        return String::from_str(text);
    }
    let mut out = String::new();
    push_char(&mut out, '"');
    let mut k: usize = 0;
    while k < n
        invariant
            n == text@.len(),
            k <= n,
            out@ == seq!['"'] + double_quotes(text@.subrange(0, k as int)),
        decreases n - k,
    {
        let c = text.get_char(k);
        assert(text@.subrange(0, k + 1).drop_last() == text@.subrange(0, k as int));
        push_char(&mut out, c);
        if c == '"' {
            push_char(&mut out, '"');
        }
        assert(out@ == seq!['"'] + double_quotes(text@.subrange(0, k + 1)));
        k = k + 1;
    }
    assert(text@.subrange(0, n as int) == text@);
    push_char(&mut out, '"');
    out
}

/// Reads back one field written by `escape_csv`: when it is wrapped in quotes,
/// strips them and turns each pair of quotes inside into one.
pub fn unescape_csv(field: &str) -> (r: String)
    ensures
        r@ == unescape_of(field@),
{
    let n = field.unicode_len();
    if n < 2 || field.get_char(0) != '"' || field.get_char(n - 1) != '"' {
        return String::from_str(field);
    }
    let ghost inner = field@.subrange(1, n - 1);
    let mut out = String::new();
    let mut i: usize = 1;
    assert(inner.skip(0) == inner);
    while i < n - 1
        invariant
            n == field@.len(),
            n >= 2,
            inner == field@.subrange(1, n - 1),
            1 <= i <= n - 1,
            out@ + undouble(inner.skip(i - 1)) == undouble(inner),
        decreases n - i,
    {
        let c = field.get_char(i);
        let ghost rest = inner.skip(i - 1);
        assert(rest[0] == c);
        if c == '"' && i + 1 < n - 1 && field.get_char(i + 1) == '"' {
            assert(rest[1] == '"');
            assert(rest.skip(2) == inner.skip(i + 1));
            push_char(&mut out, '"');
            i = i + 2;
        } else {
            assert(rest.skip(1) == inner.skip(i as int));
            push_char(&mut out, c);
            i = i + 1;
        }
    }
    assert(inner.skip(i - 1).len() == 0);
    out
}

proof fn lemma_double_quotes_front(s: Seq<char>)
    requires
        s.len() > 0,
    ensures
        double_quotes(s) == doubled(s[0]) + double_quotes(s.skip(1)),
    decreases s.len(),
{
    if s.len() == 1 {
        assert(s.drop_last().len() == 0);
        assert(s.skip(1).len() == 0);
        assert(double_quotes(s.skip(1)) == Seq::<char>::empty());
        assert(double_quotes(s.drop_last()) == Seq::<char>::empty());
        assert(Seq::<char>::empty() + doubled(s[0]) == doubled(s[0]));
        assert(doubled(s[0]) + Seq::<char>::empty() == doubled(s[0]));
    } else {
        lemma_double_quotes_front(s.drop_last());
        assert(s.skip(1).drop_last() == s.drop_last().skip(1));
        assert(s.skip(1).last() == s.last());
        assert(double_quotes(s) == doubled(s[0]) + double_quotes(s.drop_last().skip(1)) + doubled(s.last()));
    }
}

proof fn lemma_undouble_double(s: Seq<char>)
    ensures
        undouble(double_quotes(s)) == s,
    decreases s.len(),
{
    if s.len() > 0 {
        lemma_double_quotes_front(s);
        lemma_undouble_double(s.skip(1));
        let d = double_quotes(s);
        let tail = double_quotes(s.skip(1));
        if s[0] == '"' {
            assert(d.skip(2) == tail);
            assert(undouble(d) == seq!['"'] + s.skip(1));
        } else {
            assert(d[0] == s[0]);
            assert(d.skip(1) == tail);
            assert(undouble(d) == seq![s[0]] + s.skip(1));
        }
        assert(s == seq![s[0]] + s.skip(1));
    } else {
        assert(double_quotes(s).len() == 0);
    }
}

/// Reading back a written field gives the text it was written from, whatever commas, quotes
/// and newlines it holds; a field written without quotes holds no comma, quote
/// or newline, so it cannot shift the columns after it.
pub proof fn lemma_csv_round_trip(s: Seq<char>)
    ensures
        unescape_of(escape_of(s)) == s,
        !is_quoted(escape_of(s)) ==> !needs_quoting(escape_of(s)),
{
    if needs_quoting(s) {
        let t = escape_of(s);
        lemma_undouble_double(s);
        assert(t.subrange(1, t.len() - 1) == double_quotes(s));
        assert(is_quoted(t));
    } else {
        if is_quoted(s) {
            assert(is_special(s[0]));
        }
    }
}

} // verus!

verus! {

/// Scans written text from a quote state (`inside`): returns whether the scan
/// ends inside quotes, and how many commas and newlines it met outside quotes,
/// that is, how many field or record separators the text holds.
pub open spec fn scan_separators(t: Seq<char>, inside: bool) -> (bool, nat)
    decreases t.len(),
{
    if t.len() == 0 {
        (inside, 0)
    } else {
        let c = t[0];
        let next = if c == '"' { !inside } else { inside };
        let rest = scan_separators(t.skip(1), next);
        (rest.0, rest.1 + if !inside && (c == ',' || c == '\n') { 1nat } else { 0nat })
    }
}

/// A record written from its fields: the escaped fields joined by commas.
pub open spec fn record_of(fields: Seq<Seq<char>>) -> Seq<char>
    decreases fields.len(),
{
    if fields.len() <= 1 {
        if fields.len() == 0 { Seq::empty() } else { escape_of(fields[0]) }
    } else {
        record_of(fields.drop_last()) + ","@ + escape_of(fields.last())
    }
}

proof fn lemma_scan_concat(a: Seq<char>, b: Seq<char>, inside: bool)
    ensures
        scan_separators(a + b, inside) == ({
            let x = scan_separators(a, inside);
            let y = scan_separators(b, x.0);
            (y.0, x.1 + y.1)
        }),
    decreases a.len(),
{
    if a.len() == 0 {
        assert(a + b == b);
    } else {
        let next = if a[0] == '"' { !inside } else { inside };
        lemma_scan_concat(a.skip(1), b, next);
        assert((a + b).skip(1) == a.skip(1) + b);
        assert((a + b)[0] == a[0]);
    }
}

proof fn lemma_scan_single(c: char, inside: bool)
    ensures
        scan_separators(seq![c], inside) == (if c == '"' { !inside } else { inside },
            if !inside && (c == ',' || c == '\n') { 1nat } else { 0nat }),
{
    reveal_with_fuel(scan_separators, 2);
    assert(seq![c].skip(1) == Seq::<char>::empty());
    assert(seq![c][0] == c);
    assert(scan_separators(Seq::<char>::empty(), true) == (true, 0nat));
    assert(scan_separators(Seq::<char>::empty(), false) == (false, 0nat));
}

proof fn lemma_scan_plain(s: Seq<char>)
    requires
        !needs_quoting(s),
    ensures
        scan_separators(s, false) == (false, 0nat),
    decreases s.len(),
{
    if s.len() > 0 {
        assert(!is_special(s[0]));
        assert(!needs_quoting(s.skip(1))) by {
            if needs_quoting(s.skip(1)) {
                let i = choose|i: int| 0 <= i < s.skip(1).len() && is_special(#[trigger] s.skip(1)[i]);
                assert(is_special(s[i + 1]));
            }
        }
        lemma_scan_plain(s.skip(1));
    }
}

proof fn lemma_scan_doubled(s: Seq<char>)
    ensures
        scan_separators(double_quotes(s), true) == (true, 0nat),
    decreases s.len(),
{
    if s.len() > 0 {
        lemma_double_quotes_front(s);
        lemma_scan_doubled(s.skip(1));
        lemma_scan_concat(doubled(s[0]), double_quotes(s.skip(1)), true);
        if s[0] == '"' {
            lemma_scan_concat(seq!['"'], seq!['"'], true);
            lemma_scan_single('"', true);
            lemma_scan_single('"', false);
            assert(doubled(s[0]) == seq!['"'] + seq!['"']);
        } else {
            lemma_scan_single(s[0], true);
        }
    } else {
        assert(double_quotes(s).len() == 0);
    }
}

/// A written field is balanced: scanning it ends outside quotes and meets no
/// separator outside quotes.
pub proof fn lemma_escaped_field_balanced(s: Seq<char>)
    ensures
        scan_separators(escape_of(s), false) == (false, 0nat),
{
    if needs_quoting(s) {
        let open = seq!['"'];
        lemma_scan_concat(open + double_quotes(s), seq!['"'], false);
        lemma_scan_concat(open, double_quotes(s), false);
        lemma_scan_doubled(s);
        lemma_scan_single('"', false);
        lemma_scan_single('"', true);
    } else {
        lemma_scan_plain(s);
    }
}

/// Writing a record keeps the columns aligned: whatever commas, quotes and
/// newlines its fields hold, the written record has exactly one separator
/// outside quotes between each two fields and none elsewhere, and ends outside
/// quotes. With `lemma_csv_round_trip`, each field reads back as it was.
pub proof fn lemma_record_alignment(fields: Seq<Seq<char>>)
    requires
        fields.len() >= 1,
    ensures
        scan_separators(record_of(fields), false) == (false, (fields.len() - 1) as nat),
    decreases fields.len(),
{
    if fields.len() == 1 {
        lemma_escaped_field_balanced(fields[0]);
    } else {
        let init = fields.drop_last();
        lemma_record_alignment(init);
        lemma_escaped_field_balanced(fields.last());
        lemma_scan_concat(record_of(init) + ","@, escape_of(fields.last()), false);
        lemma_scan_concat(record_of(init), ","@, false);
        reveal_strlit(",");
        assert(","@ == seq![',']);
        lemma_scan_single(',', false);
    }
}

} // verus!
