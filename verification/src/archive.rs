//! Splitting an allocation archive into its consist messages.
use vstd::prelude::*;
use crate::gzip::{decompress_text, gunzip_text};
use crate::text::{
    chars_of, find_char, first_index, has_prefix, is_ws, lemma_first_index_found, lines,
    lines_prefix, split_lines, starts_with, string_of, strip_cr, trim, trim_chars, trim_end,
    trim_start, trim_start_chars,
};

verus! {

/// The line starts a message: after leading whitespace it opens with an XML declaration
/// or with the consist message element.
pub open spec fn is_message_start(t: Seq<char>) -> bool {
    starts_with(trim_start(t), "<?xml"@) || starts_with(
        trim_start(t),
        "<PassengerTrainConsistMessage"@,
    )
}

/// The messages found so far, with the current one added if there is one and it is not
/// blank.
pub open spec fn flush(msgs: Seq<Seq<char>>, cur: Seq<char>, in_msg: bool) -> Seq<Seq<char>> {
    if in_msg && trim(cur).len() > 0 {
        msgs.push(trim(cur))
    } else {
        msgs
    }
}

/// The text after the first `$` of a line, if the line has one.
pub open spec fn after_dollar(line: Seq<char>) -> Option<Seq<char>> {
    match first_index(line, '$') {
        Some(p) => Some(line.skip(p + 1)),
        None => None,
    }
}

/// One line of the scan: (messages done, current message, inside a message).
pub open spec fn scan_step(
    st: (Seq<Seq<char>>, Seq<char>, bool),
    line: Seq<char>,
) -> (Seq<Seq<char>>, Seq<char>, bool) {
    let (msgs, cur, in_msg) = st;
    if after_dollar(line) is Some && is_message_start(after_dollar(line)->0) {
        (flush(msgs, cur, in_msg), after_dollar(line)->0, true)
    } else if is_message_start(line) {
        (flush(msgs, cur, in_msg), line, true)
    } else if in_msg {
        (msgs, cur.push('\n') + line, true)
    } else {
        (msgs, cur, in_msg)
    }
}

/// The scan state after the first `n` lines.
pub open spec fn scan_lines(ls: Seq<Seq<char>>, n: int) -> (Seq<Seq<char>>, Seq<char>, bool)
    decreases n,
{
    if n <= 0 {
        (Seq::empty(), Seq::empty(), false)
    } else {
        scan_step(scan_lines(ls, n - 1), ls[n - 1])
    }
}

/// The messages of an archive text.
pub open spec fn spec_messages(content: Seq<char>) -> Seq<Seq<char>> {
    let ls = lines(content);
    let (msgs, cur, in_msg) = scan_lines(ls, ls.len() as int);
    flush(msgs, cur, in_msg)
}

/// The texts of a list of strings.
pub open spec fn views(v: Seq<String>) -> Seq<Seq<char>> {
    v.map_values(|m: String| m@)
}

fn flush_into(msgs: &mut Vec<String>, cur: &Vec<char>, in_msg: bool)
    ensures
        views(final(msgs)@) == flush(views(old(msgs)@), cur@, in_msg),
{
    if in_msg {
        let t = trim_chars(cur.as_slice());
        if t.len() > 0 {
            let ghost before = msgs@;
            msgs.push(string_of(t.as_slice()));
            assert(views(msgs@) =~= views(before).push(trim(cur@)));
        }
    }
}

fn message_start(line: &[char], xml_decl: &[char], consist: &[char]) -> (b: bool)
    requires
        xml_decl@ == "<?xml"@,
        consist@ == "<PassengerTrainConsistMessage"@,
    ensures
        b == is_message_start(line@),
{
    let t = trim_start_chars(line);
    has_prefix(t.as_slice(), xml_decl) || has_prefix(t.as_slice(), consist)
}

fn tail_after(line: &[char], pos: usize) -> (after: Vec<char>)
    requires
        pos < line@.len(),
    ensures
        after@ == line@.skip(pos + 1),
{
    let mut after: Vec<char> = Vec::new();
    assert(pos < line.len());
    let mut k = pos + 1;
    while k < line.len()
        invariant
            pos < line@.len(),
            pos + 1 <= k <= line@.len(),
            after@ == line@.subrange(pos + 1, k as int),
        decreases line@.len() - k,
    {
        after.push(line[k]);
        k = k + 1;
        assert(after@ =~= line@.subrange(pos + 1, k as int));
    }
    assert(after@ =~= line@.skip(pos + 1));
    after
}

fn append_line(cur: &mut Vec<char>, line: &[char])
    ensures
        final(cur)@ == old(cur)@.push('\n') + line@,
{
    cur.push('\n');
    let ghost before = cur@;
    let mut k: usize = 0;
    while k < line.len()
        invariant
            k <= line@.len(),
            cur@ == before + line@.take(k as int),
        decreases line@.len() - k,
    {
        cur.push(line[k]);
        k = k + 1;
        assert(cur@ =~= before + line@.take(k as int));
    }
    assert(line@.take(line@.len() as int) =~= line@);
}

fn scan_line(
    msgs: &mut Vec<String>,
    cur: &mut Vec<char>,
    in_msg: &mut bool,
    line: &Vec<char>,
    xml_decl: &[char],
    consist: &[char],
)
    requires
        xml_decl@ == "<?xml"@,
        consist@ == "<PassengerTrainConsistMessage"@,
    ensures
        (views(final(msgs)@), final(cur)@, *final(in_msg)) == scan_step(
            (views(old(msgs)@), old(cur)@, *old(in_msg)),
            line@,
        ),
{
    if let Some(pos) = find_char(line.as_slice(), '$') {
        let after = tail_after(line.as_slice(), pos);
        if message_start(after.as_slice(), xml_decl, consist) {
            flush_into(msgs, cur, *in_msg);
            *cur = after;
            *in_msg = true;
            return;
        }
    }
    if message_start(line.as_slice(), xml_decl, consist) {
        flush_into(msgs, cur, *in_msg);
        *cur = line.clone();
        *in_msg = true;
    } else if *in_msg {
        append_line(cur, line.as_slice());
    }
}

/// Parses XML messages from a string that may contain multiple messages.
/// Each message is prefixed with a message ID followed by '$', and the XML content
/// can span multiple lines. Messages start with '<?xml' or '<PassengerTrainConsistMessage'.
pub fn parse_xml_messages(content: &str) -> (out: Vec<String>)
    ensures
        views(out@) == spec_messages(content@),
{
    let xml_decl = chars_of("<?xml");
    let consist = chars_of("<PassengerTrainConsistMessage");
    let text = chars_of(content);
    let ls = split_lines(text.as_slice());
    let ghost lsv = lines(content@);
    let mut messages: Vec<String> = Vec::new();
    let mut current: Vec<char> = Vec::new();
    let mut in_message = false;
    let n = ls.len();
    assert(views(messages@) =~= Seq::<Seq<char>>::empty());
    for i in 0..n
        invariant
            n == lsv.len(),
            ls@.len() == lsv.len(),
            forall|k: int| 0 <= k < ls@.len() ==> #[trigger] ls@[k]@ == lsv[k],
            xml_decl@ == "<?xml"@,
            consist@ == "<PassengerTrainConsistMessage"@,
            (views(messages@), current@, in_message) == scan_lines(lsv, i as int),
    {
        scan_line(
            &mut messages,
            &mut current,
            &mut in_message,
            &ls[i],
            xml_decl.as_slice(),
            consist.as_slice(),
        );
    }
    flush_into(&mut messages, &current, in_message);
    messages
}

/// The messages of a gzipped archive file: `None` where the file does not decompress to
/// text.
pub fn archive_file_messages(file: &[u8]) -> (r: Option<Vec<String>>)
    ensures
        match gunzip_text(file@) {
            None => r is None,
            Some(t) => r matches Some(m) && views(m@) == spec_messages(t),
        },
{
    match decompress_text(file) {
        None => None,
        Some(text) => Some(parse_xml_messages(text.as_str())),
    }
}

/// A message as the archive scan hands it out: not empty, and opening with an XML
/// declaration or with the consist message element.
pub open spec fn well_formed_message(m: Seq<char>) -> bool {
    m.len() > 0 && (starts_with(m, "<?xml"@) || starts_with(m, "<PassengerTrainConsistMessage"@))
}

proof fn lemma_trim_start_append(a: Seq<char>, b: Seq<char>)
    requires
        trim_start(a).len() > 0,
    ensures
        trim_start(a + b) == trim_start(a) + b,
    decreases a.len(),
{
    if a.len() > 0 && is_ws(a[0]) {
        assert((a + b).drop_first() =~= a.drop_first() + b);
        assert((a + b)[0] == a[0]);
        lemma_trim_start_append(a.drop_first(), b);
    } else {
        if a.len() == 0 {
            assert(trim_start(a) =~= a);
        } else {
            assert((a + b)[0] == a[0]);
        }
    }
}

proof fn lemma_prefix_extends(t: Seq<char>, x: Seq<char>, p: Seq<char>)
    requires
        starts_with(t, p),
    ensures
        starts_with(t + x, p),
{
    assert((t + x).take(p.len() as int) =~= t.take(p.len() as int));
}

proof fn lemma_trim_end_keeps_prefix(t: Seq<char>, p: Seq<char>)
    requires
        starts_with(t, p),
        p.len() > 0,
        !is_ws(p.last()),
    ensures
        starts_with(trim_end(t), p),
    decreases t.len(),
{
    if t.len() > 0 && is_ws(t.last()) {
        if t.len() == p.len() {
            assert(t.take(p.len() as int)[p.len() - 1] == t.last());
        }
        assert(t.drop_last().take(p.len() as int) =~= t.take(p.len() as int));
        lemma_trim_end_keeps_prefix(t.drop_last(), p);
    }
}

proof fn lemma_markers()
    ensures
        "<?xml"@.len() > 0,
        !is_ws("<?xml"@.last()),
        "<PassengerTrainConsistMessage"@.len() > 0,
        !is_ws("<PassengerTrainConsistMessage"@.last()),
{
    reveal_strlit("<?xml");
    reveal_strlit("<PassengerTrainConsistMessage");
}

proof fn lemma_start_extends(cur: Seq<char>, line: Seq<char>)
    requires
        is_message_start(cur),
    ensures
        is_message_start(cur.push('\n') + line),
{
    lemma_markers();
    let x = seq!['\n'] + line;
    assert(cur.push('\n') + line =~= cur + x);
    let t = trim_start(cur);
    if starts_with(t, "<?xml"@) {
        assert(t.len() > 0);
    } else {
        assert(t.len() > 0);
    }
    lemma_trim_start_append(cur, x);
    if starts_with(t, "<?xml"@) {
        lemma_prefix_extends(t, x, "<?xml"@);
    } else {
        lemma_prefix_extends(t, x, "<PassengerTrainConsistMessage"@);
    }
}

proof fn lemma_flush_good(msgs: Seq<Seq<char>>, cur: Seq<char>, in_msg: bool)
    requires
        forall|k: int| 0 <= k < msgs.len() ==> well_formed_message(#[trigger] msgs[k]),
        in_msg ==> is_message_start(cur),
    ensures
        forall|k: int|
            0 <= k < flush(msgs, cur, in_msg).len() ==> well_formed_message(
                #[trigger] flush(msgs, cur, in_msg)[k],
            ),
{
    if in_msg && trim(cur).len() > 0 {
        lemma_markers();
        let t = trim_start(cur);
        if starts_with(t, "<?xml"@) {
            lemma_trim_end_keeps_prefix(t, "<?xml"@);
        } else {
            lemma_trim_end_keeps_prefix(t, "<PassengerTrainConsistMessage"@);
        }
        let f = flush(msgs, cur, in_msg);
        assert forall|k: int| 0 <= k < f.len() implies well_formed_message(#[trigger] f[k]) by {
            if k < msgs.len() {
                assert(f[k] == msgs[k]);
            }
        }
    }
}

proof fn lemma_scan_good(ls: Seq<Seq<char>>, n: int)
    requires
        0 <= n <= ls.len(),
    ensures
        forall|k: int|
            0 <= k < scan_lines(ls, n).0.len() ==> well_formed_message(
                #[trigger] scan_lines(ls, n).0[k],
            ),
        scan_lines(ls, n).2 ==> is_message_start(scan_lines(ls, n).1),
    decreases n,
{
    if n > 0 {
        lemma_scan_good(ls, n - 1);
        let (msgs, cur, in_msg) = scan_lines(ls, n - 1);
        let line = ls[n - 1];
        lemma_flush_good(msgs, cur, in_msg);
        if after_dollar(line) is Some && is_message_start(after_dollar(line)->0) {
        } else if is_message_start(line) {
        } else if in_msg {
            lemma_start_extends(cur, line);
        }
    }
}

/// Every message that `parse_xml_messages` returns is non-empty and starts with
/// `<?xml` or with `<PassengerTrainConsistMessage`.
pub proof fn lemma_messages_well_formed(content: Seq<char>)
    ensures
        forall|k: int|
            0 <= k < spec_messages(content).len() ==> well_formed_message(
                #[trigger] spec_messages(content)[k],
            ),
{
    let ls = lines(content);
    lemma_scan_good(ls, ls.len() as int);
    let (msgs, cur, in_msg) = scan_lines(ls, ls.len() as int);
    lemma_flush_good(msgs, cur, in_msg);
}

// ----- Laws on how the messages of joined texts relate.

/// The lines read so far depend only on the characters read so far.
proof fn lemma_lines_prefix_same(s: Seq<char>, t: Seq<char>, n: int)
    requires
        0 <= n <= s.len(),
        n <= t.len(),
        forall|i: int| 0 <= i < n ==> s[i] == t[i],
    ensures
        lines_prefix(s, n) == lines_prefix(t, n),
    decreases n,
{
    if n > 0 {
        lemma_lines_prefix_same(s, t, n - 1);
    }
}

/// After a line feed, the lines of what follows are read as on their own.
proof fn lemma_lines_prefix_shift(a: Seq<char>, b: Seq<char>, k: int)
    requires
        0 <= k <= b.len(),
    ensures
        ({
            let s = a + seq!['\n'] + b;
            let m = a.len() + 1int;
            lines_prefix(s, m + k) == (
                lines_prefix(s, m).0 + lines_prefix(b, k).0,
                lines_prefix(b, k).1,
            )
        }),
    decreases k,
{
    let s = a + seq!['\n'] + b;
    let m = a.len() + 1int;
    if k == 0 {
        assert(s[m - 1] == '\n');
        assert(lines_prefix(s, m).0 + Seq::<Seq<char>>::empty() =~= lines_prefix(s, m).0);
    } else {
        lemma_lines_prefix_shift(a, b, k - 1);
        assert(s[m + k - 1] == b[k - 1]);
        let d = lines_prefix(s, m).0;
        let (bd, bc) = lines_prefix(b, k - 1);
        if b[k - 1] == '\n' {
            assert((d + bd).push(strip_cr(bc)) =~= d + bd.push(strip_cr(bc)));
        }
    }
}

/// The lines of `a`, a line feed and `b`: those of `a` ended by the line feed, then those
/// of `b`.
proof fn lemma_lines_join(a: Seq<char>, b: Seq<char>)
    ensures
        lines(a + seq!['\n'] + b) == lines_prefix(a, a.len() as int).0.push(
            strip_cr(lines_prefix(a, a.len() as int).1),
        ) + lines(b),
{
    let s = a + seq!['\n'] + b;
    let m = a.len() + 1int;
    lemma_lines_prefix_same(s, a, a.len() as int);
    assert(s[a.len() as int] == '\n');
    let d = lines_prefix(a, a.len() as int).0.push(strip_cr(lines_prefix(a, a.len() as int).1));
    assert(lines_prefix(s, m).0 == d);
    lemma_lines_prefix_shift(a, b, b.len() as int);
    assert(s.len() == m + b.len());
    let (bd, bc) = lines_prefix(b, b.len() as int);
    if bc.len() > 0 {
        assert((d + bd).push(bc) =~= d + bd.push(bc));
    }
}

/// Leading whitespace that is all of `x` is skipped before `z`.
proof fn lemma_trim_start_blank(x: Seq<char>, z: Seq<char>)
    requires
        trim_start(x).len() == 0,
    ensures
        trim_start(x + z) == trim_start(z),
    decreases x.len(),
{
    if x.len() > 0 {
        assert(is_ws(x[0]));
        assert((x + z).drop_first() =~= x.drop_first() + z);
        assert((x + z)[0] == x[0]);
        lemma_trim_start_blank(x.drop_first(), z);
    } else {
        assert(x + z =~= z);
    }
}

/// Trailing whitespace does not change what `trim` gives.
proof fn lemma_trim_push_ws(x: Seq<char>, w: char)
    requires
        is_ws(w),
    ensures
        trim(x.push(w)) == trim(x),
{
    assert(x.push(w) =~= x + seq![w]);
    if trim_start(x).len() > 0 {
        lemma_trim_start_append(x, seq![w]);
        assert(trim_start(x) + seq![w] =~= trim_start(x).push(w));
        assert(trim_start(x).push(w).drop_last() =~= trim_start(x));
    } else {
        lemma_trim_start_blank(x, seq![w]);
        assert(seq![w].drop_first() =~= Seq::<char>::empty());
        assert(trim_start(seq![w]) == trim_start(Seq::<char>::empty()));
    }
}

/// A line that starts a message: directly, or after the message id and its `$`.
pub open spec fn is_start_line(line: Seq<char>) -> bool {
    ||| after_dollar(line) is Some && is_message_start(after_dollar(line)->0)
    ||| is_message_start(line)
}

/// The state before any line is scanned.
pub open spec fn scan_start() -> (Seq<Seq<char>>, Seq<char>, bool) {
    (Seq::empty(), Seq::empty(), false)
}

/// The scan state after the lines `ls`, from state `st`.
pub open spec fn scan_from(st: (Seq<Seq<char>>, Seq<char>, bool), ls: Seq<Seq<char>>) -> (
    Seq<Seq<char>>,
    Seq<char>,
    bool,
)
    decreases ls.len(),
{
    if ls.len() == 0 {
        st
    } else {
        scan_step(scan_from(st, ls.drop_last()), ls.last())
    }
}

/// The messages of a list of lines.
pub open spec fn messages_of_lines(ls: Seq<Seq<char>>) -> Seq<Seq<char>> {
    let r = scan_from(scan_start(), ls);
    flush(r.0, r.1, r.2)
}

proof fn lemma_scan_lines_from(ls: Seq<Seq<char>>, n: int)
    requires
        0 <= n <= ls.len(),
    ensures
        scan_lines(ls, n) == scan_from(scan_start(), ls.take(n)),
    decreases n,
{
    if n > 0 {
        lemma_scan_lines_from(ls, n - 1);
        assert(ls.take(n).drop_last() =~= ls.take(n - 1));
    } else {
        assert(ls.take(0) =~= Seq::<Seq<char>>::empty());
    }
}

proof fn lemma_messages_of_lines(content: Seq<char>)
    ensures
        spec_messages(content) == messages_of_lines(lines(content)),
{
    let ls = lines(content);
    lemma_scan_lines_from(ls, ls.len() as int);
    assert(ls.take(ls.len() as int) =~= ls);
}

proof fn lemma_scan_from_concat(
    st: (Seq<Seq<char>>, Seq<char>, bool),
    a: Seq<Seq<char>>,
    b: Seq<Seq<char>>,
)
    ensures
        scan_from(st, a + b) == scan_from(scan_from(st, a), b),
    decreases b.len(),
{
    if b.len() == 0 {
        assert(a + b =~= a);
    } else {
        lemma_scan_from_concat(st, a, b.drop_last());
        assert((a + b).drop_last() =~= a + b.drop_last());
        assert((a + b).last() == b.last());
    }
}

proof fn lemma_flush_shift(p: Seq<Seq<char>>, msgs: Seq<Seq<char>>, cur: Seq<char>, in_msg: bool)
    ensures
        flush(p + msgs, cur, in_msg) == p + flush(msgs, cur, in_msg),
{
    assert((p + msgs).push(trim(cur)) =~= p + msgs.push(trim(cur)));
}

/// Messages found before a state are carried through the rest of the scan.
proof fn lemma_scan_shift(
    p: Seq<Seq<char>>,
    st: (Seq<Seq<char>>, Seq<char>, bool),
    ls: Seq<Seq<char>>,
)
    ensures
        scan_from((p + st.0, st.1, st.2), ls) == (
            p + scan_from(st, ls).0,
            scan_from(st, ls).1,
            scan_from(st, ls).2,
        ),
    decreases ls.len(),
{
    if ls.len() > 0 {
        lemma_scan_shift(p, st, ls.drop_last());
        let r = scan_from(st, ls.drop_last());
        lemma_flush_shift(p, r.0, r.1, r.2);
    }
}

/// A scan that meets a start line first ends the message in hand and goes on as a fresh
/// scan would.
proof fn lemma_scan_from_start(st: (Seq<Seq<char>>, Seq<char>, bool), b: Seq<Seq<char>>)
    requires
        b.len() > 0,
        is_start_line(b[0]),
    ensures
        scan_from(st, b) == (
            flush(st.0, st.1, st.2) + scan_from(scan_start(), b).0,
            scan_from(scan_start(), b).1,
            scan_from(scan_start(), b).2,
        ),
{
    let head = seq![b[0]];
    let rest = b.skip(1);
    assert(b =~= head + rest);
    lemma_scan_from_concat(st, head, rest);
    lemma_scan_from_concat(scan_start(), head, rest);
    assert(head.drop_last() =~= Seq::<Seq<char>>::empty());
    assert(head.last() == b[0]);
    assert(scan_from(st, head.drop_last()) == st);
    assert(scan_from(scan_start(), head.drop_last()) == scan_start());
    let s1 = scan_step(st, b[0]);
    let s0 = scan_step(scan_start(), b[0]);
    assert(scan_from(st, head) == s1);
    assert(scan_from(scan_start(), head) == s0);
    let f = flush(st.0, st.1, st.2);
    assert(s0.0 =~= Seq::<Seq<char>>::empty());
    assert(s1 == (f + s0.0, s0.1, s0.2)) by {
        assert(f + s0.0 =~= f);
    }
    lemma_scan_shift(f, s0, rest);
}

/// Where no line starts a message, the scan stays where it began.
proof fn lemma_scan_no_start(ls: Seq<Seq<char>>)
    requires
        forall|i: int| 0 <= i < ls.len() ==> !is_start_line(#[trigger] ls[i]),
    ensures
        scan_from(scan_start(), ls) == scan_start(),
    decreases ls.len(),
{
    if ls.len() > 0 {
        assert forall|i: int| 0 <= i < ls.drop_last().len() implies !is_start_line(
            #[trigger] ls.drop_last()[i],
        ) by {
            assert(ls.drop_last()[i] == ls[i]);
        }
        lemma_scan_no_start(ls.drop_last());
        assert(!is_start_line(ls[ls.len() - 1]));
    }
}

/// An empty line starts no message.
proof fn lemma_empty_line()
    ensures
        !is_start_line(Seq::<char>::empty()),
{
    lemma_markers();
    let e = Seq::<char>::empty();
    assert(!(exists|i: int| 0 <= i < e.len() && e[i] == '$'));
    assert(trim_start(e) == e);
}

/// An empty last line changes no message.
proof fn lemma_messages_push_empty(ls: Seq<Seq<char>>)
    ensures
        messages_of_lines(ls.push(Seq::empty())) == messages_of_lines(ls),
{
    let e = Seq::<char>::empty();
    lemma_empty_line();
    assert(ls.push(e).drop_last() =~= ls);
    let st = scan_from(scan_start(), ls);
    if st.2 {
        assert(st.1.push('\n') + e =~= st.1.push('\n'));
        lemma_trim_push_ws(st.1, '\n');
    }
}

/// A character other than `$` added at the end of a line extends the text after its `$`.
proof fn lemma_after_dollar_push(l: Seq<char>, c: char)
    requires
        c != '$',
    ensures
        after_dollar(l.push(c)) == match after_dollar(l) {
            Some(t) => Some(t.push(c)),
            None => None,
        },
{
    let l2 = l.push(c);
    if exists|j: int| 0 <= j < l.len() && l[j] == '$' {
        let j = choose|j: int| 0 <= j < l.len() && l[j] == '$';
        lemma_first_index_found(l, '$', j);
        let i = first_index(l, '$')->0;
        assert(l2[j] == '$');
        lemma_first_index_found(l2, '$', j);
        let i2 = first_index(l2, '$')->0;
        if i2 < i {
            assert(l2[i2] == l[i2]);
        }
        if i < i2 {
            assert(l2[i] == l[i]);
        }
        assert(i2 == i);
        assert(l2.skip(i + 1) =~= l.skip(i + 1).push(c));
    } else {
        assert forall|j: int| 0 <= j < l2.len() implies l2[j] != '$' by {
            if j < l.len() {
                assert(l2[j] == l[j]);
            }
        }
    }
}

/// A whitespace character added at the end of a line does not change whether it starts a
/// message.
proof fn lemma_message_start_push_ws(x: Seq<char>, w: char)
    requires
        is_ws(w),
    ensures
        is_message_start(x.push(w)) == is_message_start(x),
{
    lemma_markers();
    let p1 = "<?xml"@;
    let p2 = "<PassengerTrainConsistMessage"@;
    assert(x.push(w) =~= x + seq![w]);
    if trim_start(x).len() > 0 {
        lemma_trim_start_append(x, seq![w]);
        let y = trim_start(x);
        assert(y + seq![w] =~= y.push(w));
        assert forall|p: Seq<char>| p.len() > 0 && !is_ws(p.last()) implies starts_with(
            y.push(w),
            p,
        ) == starts_with(y, p) by {
            if p.len() <= y.len() {
                assert(y.push(w).take(p.len() as int) =~= y.take(p.len() as int));
            } else if p.len() == y.len() + 1 {
                if starts_with(y.push(w), p) {
                    assert(y.push(w).take(p.len() as int) =~= y.push(w));
                    assert(p.last() == w);
                }
            }
        }
        assert(starts_with(y.push(w), p1) == starts_with(y, p1));
        assert(starts_with(y.push(w), p2) == starts_with(y, p2));
    } else {
        lemma_trim_start_blank(x, seq![w]);
        assert(seq![w].drop_first() =~= Seq::<char>::empty());
        assert(trim_start(seq![w]) == trim_start(Seq::<char>::empty()));
    }
}

/// A carriage return at the end of a line does not change whether it starts a message.
proof fn lemma_start_line_push_cr(l: Seq<char>)
    ensures
        is_start_line(l.push('\r')) == is_start_line(l),
{
    lemma_after_dollar_push(l, '\r');
    lemma_message_start_push_ws(l, '\r');
    if after_dollar(l) is Some {
        lemma_message_start_push_ws(after_dollar(l)->0, '\r');
    }
}

/// A carriage return at the end of the last line changes no message.
proof fn lemma_messages_push_cr(ls: Seq<Seq<char>>, l: Seq<char>)
    ensures
        messages_of_lines(ls.push(l.push('\r'))) == messages_of_lines(ls.push(l)),
{
    let st = scan_from(scan_start(), ls);
    let lr = l.push('\r');
    assert(ls.push(lr).drop_last() =~= ls);
    assert(ls.push(l).drop_last() =~= ls);
    lemma_after_dollar_push(l, '\r');
    lemma_message_start_push_ws(l, '\r');
    let (msgs, cur, in_msg) = st;
    if after_dollar(l) is Some && is_message_start(after_dollar(l)->0) {
        let t = after_dollar(l)->0;
        lemma_message_start_push_ws(t, '\r');
        lemma_trim_push_ws(t, '\r');
    } else if is_message_start(l) {
        if after_dollar(l) is Some {
            lemma_message_start_push_ws(after_dollar(l)->0, '\r');
        }
        lemma_trim_push_ws(l, '\r');
    } else if in_msg {
        if after_dollar(l) is Some {
            lemma_message_start_push_ws(after_dollar(l)->0, '\r');
        }
        assert(cur.push('\n') + lr =~= (cur.push('\n') + l).push('\r'));
        lemma_trim_push_ws(cur.push('\n') + l, '\r');
    } else {
        if after_dollar(l) is Some {
            lemma_message_start_push_ws(after_dollar(l)->0, '\r');
        }
    }
}

/// The lines of `c` ended by one more line feed give the messages that `c` gives.
proof fn lemma_closed_lines(c: Seq<char>)
    ensures
        messages_of_lines(
            lines_prefix(c, c.len() as int).0.push(strip_cr(lines_prefix(c, c.len() as int).1)),
        ) == spec_messages(c),
{
    lemma_messages_of_lines(c);
    let (d, cur) = lines_prefix(c, c.len() as int);
    if cur.len() == 0 {
        assert(strip_cr(cur) == cur);
        assert(lines(c) == d);
        lemma_messages_push_empty(d);
    } else if cur.last() == '\r' {
        let l = cur.drop_last();
        assert(l.push('\r') =~= cur);
        lemma_messages_push_cr(d, l);
    }
}

/// Joining two archive texts with a line feed joins their messages, where the second text
/// begins with a line that starts a message.
pub proof fn lemma_messages_split(c1: Seq<char>, c2: Seq<char>)
    requires
        lines(c2).len() > 0,
        is_start_line(lines(c2)[0]),
    ensures
        spec_messages(c1 + seq!['\n'] + c2) == spec_messages(c1) + spec_messages(c2),
{
    let (d, cur) = lines_prefix(c1, c1.len() as int);
    let l1 = d.push(strip_cr(cur));
    let l2 = lines(c2);
    lemma_lines_join(c1, c2);
    lemma_messages_of_lines(c1 + seq!['\n'] + c2);
    lemma_messages_of_lines(c2);
    lemma_closed_lines(c1);
    lemma_scan_from_concat(scan_start(), l1, l2);
    let r1 = scan_from(scan_start(), l1);
    lemma_scan_from_start(r1, l2);
    let r2 = scan_from(scan_start(), l2);
    lemma_flush_shift(flush(r1.0, r1.1, r1.2), r2.0, r2.1, r2.2);
}

/// Text before the first line that starts a message is ignored.
pub proof fn lemma_messages_skip_preamble(p: Seq<char>, c: Seq<char>)
    requires
        forall|i: int| 0 <= i < lines(p).len() ==> !is_start_line(#[trigger] lines(p)[i]),
    ensures
        spec_messages(p + seq!['\n'] + c) == spec_messages(c),
{
    let (d, cur) = lines_prefix(p, p.len() as int);
    let l1 = d.push(strip_cr(cur));
    lemma_lines_join(p, c);
    lemma_messages_of_lines(p + seq!['\n'] + c);
    lemma_messages_of_lines(c);
    assert forall|i: int| 0 <= i < l1.len() implies !is_start_line(#[trigger] l1[i]) by {
        if i < d.len() {
            assert(lines(p)[i] == d[i]);
        } else if cur.len() == 0 {
            lemma_empty_line();
        } else {
            assert(lines(p)[i] == cur);
            if cur.last() == '\r' {
                assert(cur.drop_last().push('\r') =~= cur);
                lemma_start_line_push_cr(cur.drop_last());
            }
        }
    }
    lemma_scan_no_start(l1);
    lemma_scan_from_concat(scan_start(), l1, lines(c));
}

} // verus!
