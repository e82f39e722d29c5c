//! PowerDNS Authoritative: zone-file record contents, record ids and the
//! read-modify-write plans for RRsets.
use vstd::prelude::*;
use crate::text::{
    chars_of, copy_range as copy_range_chars, extend_chars, join, replace_all, replace_chars, string_of,
};

verus! {

// ---------------------------------------------------------------------------
// Canonical names
// ---------------------------------------------------------------------------
/// Absolute DNS name with the trailing dot PowerDNS requires.
pub open spec fn spec_canonical(name: Seq<char>) -> Seq<char> {
    if name.len() > 0 && name.last() == '.' {
        name
    } else {
        name.push('.')
    }
}

/// Absolute DNS name with the trailing dot PowerDNS requires.
pub fn canonical(name: &str) -> (res: String)
    ensures
        res@ == spec_canonical(name@),
{
    string_of(&canonical_chars(&chars_of(name)))
}

/// [`canonical`] over characters.
pub fn canonical_chars(name: &[char]) -> (res: Vec<char>)
    ensures
        res@ == spec_canonical(name@),
{
    let mut out: Vec<char> = Vec::new();
    extend_chars(&mut out, name);
    if name.len() > 0 && name[name.len() - 1] == '.' {
        out
    } else {
        out.push('.');
        out
    }
}

// ---------------------------------------------------------------------------
// TXT character-strings
// ---------------------------------------------------------------------------
/// Number of bytes of a character in UTF-8 (`char::len_utf8`).
pub open spec fn utf8_len(c: char) -> nat {
    let v = c as u32;
    if v < 0x80 {
        1
    } else if v < 0x800 {
        2
    } else if v < 0x10000 {
        3
    } else {
        4
    }
}

/// Number of bytes of a character sequence in UTF-8.
pub open spec fn utf8_size(s: Seq<char>) -> nat
    decreases s.len(),
{
    if s.len() == 0 {
        0
    } else {
        utf8_size(s.drop_last()) + utf8_len(s.last())
    }
}

/// The concatenation of all parts.
pub open spec fn concat_all(parts: Seq<Seq<char>>) -> Seq<char>
    decreases parts.len(),
{
    if parts.len() == 0 {
        seq![]
    } else {
        concat_all(parts.drop_last()) + parts.last()
    }
}

/// Greedy chunking state after reading `s`: finished chunks and the chunk
/// being filled. A character that would push the current chunk past 255
/// bytes starts a new chunk.
pub open spec fn chunk_state(s: Seq<char>) -> (Seq<Seq<char>>, Seq<char>)
    decreases s.len(),
{
    if s.len() == 0 {
        (seq![], seq![])
    } else {
        let (done, cur) = chunk_state(s.drop_last());
        let c = s.last();
        if utf8_size(cur) + utf8_len(c) > 255 {
            (done.push(cur), seq![c])
        } else {
            (done, cur.push(c))
        }
    }
}

/// The character-strings a TXT value is split into: greedy chunks of at
/// most 255 bytes; the empty value is one empty chunk.
pub open spec fn txt_chunks(s: Seq<char>) -> Seq<Seq<char>> {
    let (done, cur) = chunk_state(s);
    if cur.len() > 0 || done.len() == 0 {
        done.push(cur)
    } else {
        done
    }
}

/// A chunk with `\` and `"` escaped by a backslash.
pub open spec fn escape_txt(c: Seq<char>) -> Seq<char> {
    replace_all(replace_all(c, seq!['\\'], seq!['\\', '\\']), seq!['"'], seq!['\\', '"'])
}

/// A chunk as a quoted character-string.
pub open spec fn quote_txt(c: Seq<char>) -> Seq<char> {
    seq!['"'] + escape_txt(c) + seq!['"']
}

/// TXT content in zone-file form: the quoted chunks separated by spaces.
pub open spec fn spec_txt_content(s: Seq<char>) -> Seq<char> {
    join(txt_chunks(s).map_values(|c: Seq<char>| quote_txt(c)), seq![' '])
}

/// `char::len_utf8`.
pub fn char_utf8_len(c: char) -> (res: usize)
    ensures
        res == utf8_len(c),
{
    let v = c as u32;
    if v < 0x80 {
        1
    } else if v < 0x800 {
        2
    } else if v < 0x10000 {
        3
    } else {
        4
    }
}

/// Quotes TXT content, splitting it into <=255 byte character-strings.
pub fn txt_content(value: &str) -> (res: String)
    ensures
        res@ == spec_txt_content(value@),
{
    let s = chars_of(value);
    let mut chunks: Vec<Vec<char>> = Vec::new();
    let mut chunk: Vec<char> = Vec::new();
    let mut chunk_bytes: usize = 0;
    let ghost mut done: Seq<Seq<char>> = seq![];
    let mut i: usize = 0;
    while i < s.len()
        invariant
            i <= s.len(),
            (done, chunk@) == chunk_state(s@.take(i as int)),
            chunks@.len() == done.len(),
            forall|k: int| 0 <= k < done.len() ==> #[trigger] chunks@[k]@ == done[k],
            chunk_bytes == utf8_size(chunk@),
            chunk_bytes <= 255,
        decreases s.len() - i,
    {
        let c = s[i];
        let n = char_utf8_len(c);
        assert(s@.take(i + 1).drop_last() == s@.take(i as int));
        assert(s@.take(i + 1).last() == c);
        if chunk_bytes + n > 255 {
            proof {
                done = done.push(chunk@);
            }
            let full = chunk;
            chunks.push(full);
            chunk = vec![c];
            assert(chunk@.drop_last() == Seq::<char>::empty());
            assert(chunk@.last() == c);
            assert(utf8_size(chunk@) == utf8_size(Seq::<char>::empty()) + utf8_len(c));
            chunk_bytes = n;
        } else {
            assert(chunk@.push(c).drop_last() == chunk@);
            assert(chunk@.push(c).last() == c);
            assert(utf8_size(chunk@.push(c)) == utf8_size(chunk@) + utf8_len(c));
            chunk.push(c);
            chunk_bytes = chunk_bytes + n;
        }
        i = i + 1;
    }
    assert(s@.take(s.len() as int) == s@);
    if chunk.len() > 0 || chunks.len() == 0 {
        proof {
            done = done.push(chunk@);
        }
        chunks.push(chunk);
    }
    assert(done == txt_chunks(s@));
    let ghost quoted = done.map_values(|c: Seq<char>| quote_txt(c));
    let mut out: Vec<char> = Vec::new();
    let mut k: usize = 0;
    while k < chunks.len()
        invariant
            k <= chunks@.len(),
            chunks@.len() == done.len(),
            forall|j: int| 0 <= j < done.len() ==> #[trigger] chunks@[j]@ == done[j],
            quoted == done.map_values(|c: Seq<char>| quote_txt(c)),
            out@ == join(quoted.take(k as int), seq![' ']),
        decreases chunks@.len() - k,
    {
        let ghost before = out@;
        if k > 0 {
            out.push(' ');
        }
        out.push('"');
        let slash: [char; 1] = ['\\'];
        let slash2: [char; 2] = ['\\', '\\'];
        let quote: [char; 1] = ['"'];
        let quote2: [char; 2] = ['\\', '"'];
        assert(slash@ =~= seq!['\\']);
        assert(slash2@ =~= seq!['\\', '\\']);
        assert(quote@ =~= seq!['"']);
        assert(quote2@ =~= seq!['\\', '"']);
        let current = &chunks[k];
        assert(current@ == done[k as int]);
        let escaped_slash = replace_chars(current, &slash, &slash2);
        let escaped = replace_chars(&escaped_slash, &quote, &quote2);
        assert(escaped@ == escape_txt(done[k as int]));
        let ghost mid = out@;
        extend_chars(&mut out, &escaped);
        out.push('"');
        assert(out@ == mid + escape_txt(done[k as int]) + seq!['"']);
        proof {
            assert(quoted[k as int] == quote_txt(done[k as int]));
            assert(quoted.take(k + 1).drop_last() == quoted.take(k as int));
            assert(quoted.take(k + 1).last() == quoted[k as int]);
            if k == 0 {
                assert(quoted.take(1) == seq![quoted[0]]);
                assert(mid == seq!['"']);
                assert(out@ =~= quoted[0]);
            } else {
                assert(mid == before + seq![' '] + seq!['"']);
                assert(out@ =~= before + seq![' '] + quoted[k as int]);
            }
        }
        k = k + 1;
    }
    assert(quoted.take(done.len() as int) == quoted);
    string_of(&out)
}

/// The chunking invariant: chunks read back to the input, every finished
/// chunk is non-empty and at most 255 bytes, the open chunk is at most 255
/// bytes and non-empty once anything was read.
pub proof fn lemma_chunk_state(s: Seq<char>)
    ensures
        ({
            let (done, cur) = chunk_state(s);
            &&& concat_all(done) + cur == s
            &&& forall|k: int|
                #![trigger done[k]]
                0 <= k < done.len() ==> done[k].len() > 0 && utf8_size(done[k]) <= 255
            &&& utf8_size(cur) <= 255
            &&& (s.len() > 0 ==> cur.len() > 0)
        }),
    decreases s.len(),
{
    if s.len() > 0 {
        let p = s.drop_last();
        lemma_chunk_state(p);
        let (done, cur) = chunk_state(p);
        let c = s.last();
        assert(p.push(c) == s);
        assert(utf8_len(c) <= 4);
        if p.len() == 0 {
            assert(chunk_state(p) == (Seq::<Seq<char>>::empty(), Seq::<char>::empty()));
            assert(utf8_size(cur) == 0);
        }
        if utf8_size(cur) + utf8_len(c) > 255 {
            assert(chunk_state(s) == (done.push(cur), seq![c]));
            assert(cur.len() > 0);
            assert(done.push(cur).drop_last() == done);
            let one = seq![c];
            assert(one.drop_last() =~= Seq::<char>::empty());
            assert(utf8_size(one.drop_last()) == 0);
            assert(one.last() == c);
            assert(utf8_size(one) == utf8_len(c));
            assert forall|k: int| 0 <= k < done.push(cur).len() implies #[trigger] done.push(cur)[k].len() > 0
                && utf8_size(done.push(cur)[k]) <= 255 by {
                if k < done.len() {
                    assert(done.push(cur)[k] == done[k]);
                } else {
                    assert(done.push(cur)[k] == cur);
                }
            }
            assert(seq![c].drop_last() == Seq::<char>::empty());
            assert(concat_all(done.push(cur)) + seq![c] == s);
        } else {
            assert(chunk_state(s) == (done, cur.push(c)));
            assert(cur.push(c).drop_last() == cur);
            assert(cur.push(c).last() == c);
            assert(utf8_size(cur.push(c)) == utf8_size(cur) + utf8_len(c));
            assert(concat_all(done) + cur.push(c) == s);
        }
    }
}

/// Law: the character-strings of a TXT value read back to the value, and
/// each is at most 255 bytes long; only the empty value gives an empty one.
pub proof fn law_txt_chunks(s: Seq<char>)
    ensures
        concat_all(txt_chunks(s)) == s,
        forall|k: int|
            0 <= k < txt_chunks(s).len() ==> #[trigger] utf8_size(txt_chunks(s)[k]) <= 255,
        s.len() > 0 ==> forall|k: int|
            0 <= k < txt_chunks(s).len() ==> #[trigger] txt_chunks(s)[k].len() > 0,
        txt_chunks(s).len() > 0,
{
    lemma_chunk_state(s);
    let (done, cur) = chunk_state(s);
    if cur.len() > 0 || done.len() == 0 {
        assert(txt_chunks(s) == done.push(cur));
        assert(done.push(cur).drop_last() == done);
        assert forall|k: int| 0 <= k < txt_chunks(s).len() && s.len() > 0 implies #[trigger] txt_chunks(s)[k].len() > 0 by {
            if k < done.len() {
                assert(done.push(cur)[k] == done[k]);
                assert(utf8_size(done[k]) <= 255);
            } else {
                assert(done.push(cur)[k] == cur);
            }
        }
        assert forall|k: int| 0 <= k < done.push(cur).len() implies #[trigger] utf8_size(
            done.push(cur)[k],
        ) <= 255 && (s.len() > 0 ==> done.push(cur)[k].len() > 0) by {
            if k < done.len() {
                assert(done.push(cur)[k] == done[k]);
                assert(utf8_size(done[k]) <= 255);
            } else {
                assert(done.push(cur)[k] == cur);
            }
        }
    } else {
        assert(cur =~= Seq::<char>::empty());
        assert(concat_all(done) + cur =~= concat_all(done));
        assert forall|k: int| 0 <= k < done.len() implies #[trigger] utf8_size(done[k]) <= 255
            && done[k].len() > 0 by {
            assert(utf8_size(done[k]) <= 255);
        }
    }
}

} // verus!

verus! {

use crate::ipaddr::{same_address, IpValue};
use crate::providers::{
    record_type_name, record_type_name_chars, DnsRecordInput, DnsRecordType, StoredRecord,
};
use crate::text::{
    chars_eq, chars_eq_ignore_ascii_case, eq_ignore_ascii_case, nat_decimal, u64_decimal,
};

// ---------------------------------------------------------------------------
// Record contents
// ---------------------------------------------------------------------------
/// Record content in PowerDNS zone-file format.
pub open spec fn spec_record_content(record: DnsRecordInput) -> Seq<char> {
    match record.record_type {
        DnsRecordType::A | DnsRecordType::AAAA => record.content@,
        DnsRecordType::CNAME => spec_canonical(record.content@),
        DnsRecordType::TXT => spec_txt_content(record.content@),
        DnsRecordType::SRV => nat_decimal(record.priority as nat) + seq![' '] + nat_decimal(
            record.weight as nat,
        ) + seq![' '] + nat_decimal(record.port as nat) + seq![' '] + spec_canonical(
            record.content@,
        ),
    }
}

/// Record content in PowerDNS zone-file format.
pub fn record_content(record: &DnsRecordInput) -> (res: String)
    ensures
        res@ == spec_record_content(*record),
{
    match record.record_type {
        DnsRecordType::A | DnsRecordType::AAAA => record.content.clone(),
        DnsRecordType::CNAME => canonical(record.content.as_str()),
        DnsRecordType::TXT => txt_content(record.content.as_str()),
        DnsRecordType::SRV => {
            let mut out = u64_decimal(record.priority as u64);
            out.push(' ');
            extend_chars(&mut out, &u64_decimal(record.weight as u64));
            out.push(' ');
            extend_chars(&mut out, &u64_decimal(record.port as u64));
            out.push(' ');
            extend_chars(&mut out, &canonical_chars(&chars_of(record.content.as_str())));
            string_of(&out)
        },
    }
}

/// Whether two content strings denote the same record. PowerDNS normalizes
/// what it stores (IPv6 compression, name case), so addresses are compared
/// as addresses when both read as one (`a_ip`, `b_ip` are what
/// `IpAddr::from_str` gives for `a` and `b`), names without ASCII case.
pub open spec fn spec_content_matches(
    record_type: DnsRecordType,
    a: Seq<char>,
    b: Seq<char>,
    a_ip: Option<IpValue>,
    b_ip: Option<IpValue>,
) -> bool {
    match record_type {
        DnsRecordType::A | DnsRecordType::AAAA => match (a_ip, b_ip) {
            (Some(x), Some(y)) => same_address(x, y),
            _ => a == b,
        },
        DnsRecordType::CNAME | DnsRecordType::SRV => eq_ignore_ascii_case(a, b),
        DnsRecordType::TXT => a == b,
    }
}

/// Whether two content strings denote the same record.
pub fn content_matches(
    record_type: DnsRecordType,
    a: &str,
    b: &str,
    a_ip: &Option<IpValue>,
    b_ip: &Option<IpValue>,
) -> (res: bool)
    ensures
        res == spec_content_matches(record_type, a@, b@, *a_ip, *b_ip),
{
    let a_chars = chars_of(a);
    let b_chars = chars_of(b);
    match record_type {
        DnsRecordType::A | DnsRecordType::AAAA => match (a_ip, b_ip) {
            (Some(x), Some(y)) => x.same_as(y),
            _ => chars_eq(&a_chars, &b_chars),
        },
        DnsRecordType::CNAME | DnsRecordType::SRV => chars_eq_ignore_ascii_case(
            &a_chars,
            &b_chars,
        ),
        DnsRecordType::TXT => chars_eq(&a_chars, &b_chars),
    }
}

/// Law: A and AAAA records are sent with their content text unchanged (an
/// address, never a dotted name).
pub proof fn law_address_content_is_unchanged(record: DnsRecordInput)
    requires
        record.record_type == DnsRecordType::A || record.record_type == DnsRecordType::AAAA,
    ensures
        spec_record_content(record) == record.content@,
{
}

/// Law: a CNAME record is sent as its target made absolute: the target with
/// a trailing dot added unless it already ends in one.
pub proof fn law_cname_content_is_absolute(record: DnsRecordInput)
    requires
        record.record_type == DnsRecordType::CNAME,
    ensures
        spec_record_content(record).len() > 0,
        spec_record_content(record).last() == '.',
        record.content@.len() > 0 && record.content@.last() == '.' ==> spec_record_content(record)
            == record.content@,
        !(record.content@.len() > 0 && record.content@.last() == '.') ==> spec_record_content(
            record,
        ) == record.content@.push('.'),
{
}

/// Law: every content matches itself (read the same way).
pub proof fn law_content_matches_reflexive(
    record_type: DnsRecordType,
    a: Seq<char>,
    a_ip: Option<IpValue>,
)
    ensures
        spec_content_matches(record_type, a, a, a_ip, a_ip),
{
}

/// Law: matching does not depend on the order of the two contents.
pub proof fn law_content_matches_symmetric(
    record_type: DnsRecordType,
    a: Seq<char>,
    b: Seq<char>,
    a_ip: Option<IpValue>,
    b_ip: Option<IpValue>,
)
    ensures
        spec_content_matches(record_type, a, b, a_ip, b_ip) == spec_content_matches(
            record_type,
            b,
            a,
            b_ip,
            a_ip,
        ),
{
}

} // verus!

verus! {

// ---------------------------------------------------------------------------
// Record ids
// ---------------------------------------------------------------------------
/// Position of the first `c` in `s`.
pub open spec fn first_index(s: Seq<char>, c: char) -> Option<int>
    decreases s.len(),
{
    if s.len() == 0 {
        None
    } else if s[0] == c {
        Some(0)
    } else {
        match first_index(s.subrange(1, s.len() as int), c) {
            Some(i) => Some(i + 1),
            None => None,
        }
    }
}

/// `first_index` is the position of the first occurrence.
pub proof fn lemma_first_index(s: Seq<char>, c: char)
    ensures
        match first_index(s, c) {
            Some(i) => 0 <= i < s.len() && s[i] == c && forall|j: int| 0 <= j < i ==> s[j] != c,
            None => forall|j: int| 0 <= j < s.len() ==> s[j] != c,
        },
    decreases s.len(),
{
    if s.len() > 0 && s[0] != c {
        let rest = s.subrange(1, s.len() as int);
        lemma_first_index(rest, c);
        assert forall|j: int| 1 <= j < s.len() implies s[j] == rest[j - 1] by {}
    }
}

/// The first occurrence of `c` is at `i`.
pub proof fn lemma_first_index_at(s: Seq<char>, c: char, i: int)
    requires
        0 <= i < s.len(),
        s[i] == c,
        forall|j: int| 0 <= j < i ==> s[j] != c,
    ensures
        first_index(s, c) == Some(i),
{
    lemma_first_index(s, c);
    match first_index(s, c) {
        Some(k) => {
            if k < i {
                assert(s[k] != c);
            } else if k > i {
                assert(s[i] != c);
            }
        },
        None => {
            assert(s[i] != c);
        },
    }
}

/// `s` split around its first space.
pub open spec fn split_space(s: Seq<char>) -> Option<(Seq<char>, Seq<char>)> {
    match first_index(s, ' ') {
        Some(i) => Some((s.subrange(0, i), s.subrange(i + 1, s.len() as int))),
        None => None,
    }
}

/// The record type a `Debug` name stands for.
pub open spec fn parse_record_type(s: Seq<char>) -> Option<DnsRecordType> {
    if s == record_type_name(DnsRecordType::A) {
        Some(DnsRecordType::A)
    } else if s == record_type_name(DnsRecordType::AAAA) {
        Some(DnsRecordType::AAAA)
    } else if s == record_type_name(DnsRecordType::CNAME) {
        Some(DnsRecordType::CNAME)
    } else if s == record_type_name(DnsRecordType::TXT) {
        Some(DnsRecordType::TXT)
    } else if s == record_type_name(DnsRecordType::SRV) {
        Some(DnsRecordType::SRV)
    } else {
        None
    }
}

/// PowerDNS has no per-record ids - records live in RRsets keyed by name and
/// type. Records are therefore addressed by `"{type} {name} {content}"`,
/// where `name` is canonical (trailing dot) and `content` is in PowerDNS
/// format. Only `content` may contain spaces.
#[derive(Clone, Debug)]
pub struct RecordKey {
    pub record_type: DnsRecordType,
    pub name: String,
    pub content: String,
}

/// The id of a record key.
pub open spec fn spec_encode(record_type: DnsRecordType, name: Seq<char>, content: Seq<char>) -> Seq<char> {
    record_type_name(record_type) + seq![' '] + name + seq![' '] + content
}

/// The key an id stands for: type, then name up to the next space, then the
/// rest as content.
pub open spec fn spec_decode(id: Seq<char>) -> Option<(DnsRecordType, Seq<char>, Seq<char>)> {
    match split_space(id) {
        Some((t, rest)) => match split_space(rest) {
            Some((name, content)) => match parse_record_type(t) {
                Some(record_type) => Some((record_type, name, content)),
                None => None,
            },
            None => None,
        },
        None => None,
    }
}

/// An id that is not of the form `"{type} {name} {content}"`.
#[derive(Clone, Debug)]
pub struct MalformedRecordId {
    pub id: String,
}

impl MalformedRecordId {
    /// The error text.
    pub fn message(&self) -> (res: String)
        ensures
            res@ == "powerdns: malformed record id `"@ + self.id@ + "`"@,
    {
        let mut text = chars_of("powerdns: malformed record id `");
        extend_chars(&mut text, &chars_of(self.id.as_str()));
        extend_chars(&mut text, &chars_of("`"));
        string_of(&text)
    }
}

/// Position of the first `c` in `s[from..]`.
fn find_char(s: &[char], from: usize, c: char) -> (res: Option<usize>)
    requires
        from <= s.len(),
    ensures
        match res {
            Some(i) => from <= i < s.len() && s@[i as int] == c && forall|j: int|
                from <= j < i ==> s@[j] != c,
            None => forall|j: int| from <= j < s.len() ==> s@[j] != c,
        },
{
    let mut i = from;
    while i < s.len()
        invariant
            from <= i <= s.len(),
            forall|j: int| from <= j < i ==> s@[j] != c,
        decreases s.len() - i,
    {
        if s[i] == c {
            return Some(i);
        }
        i = i + 1;
    }
    None
}

/// `split_space` of `s[from..]`, as positions in `s`.
proof fn lemma_split_from(s: Seq<char>, from: int, found: Option<usize>)
    requires
        0 <= from <= s.len(),
        match found {
            Some(i) => from <= i < s.len() && s[i as int] == ' ' && forall|j: int|
                from <= j < i ==> s[j] != ' ',
            None => forall|j: int| from <= j < s.len() ==> s[j] != ' ',
        },
    ensures
        match found {
            Some(i) => split_space(s.subrange(from, s.len() as int)) == Some(
                (s.subrange(from, i as int), s.subrange(i + 1, s.len() as int)),
            ),
            None => split_space(s.subrange(from, s.len() as int)) is None,
        },
{
    let rest = s.subrange(from, s.len() as int);
    match found {
        Some(i) => {
            lemma_first_index_at(rest, ' ', i - from);
            assert(rest.subrange(0, i - from) =~= s.subrange(from, i as int));
            assert(rest.subrange(i - from + 1, rest.len() as int) =~= s.subrange(
                i + 1,
                s.len() as int,
            ));
        },
        None => {
            lemma_first_index(rest, ' ');
            match first_index(rest, ' ') {
                Some(k) => {
                    assert(rest[k] == s[from + k]);
                },
                None => {},
            }
        },
    }
}

impl RecordKey {
    /// `"{type} {name} {content}"`.
    pub fn encode(&self) -> (res: String)
        ensures
            res@ == spec_encode(self.record_type, self.name@, self.content@),
    {
        let mut text = record_type_name_chars(self.record_type);
        text.push(' ');
        extend_chars(&mut text, &chars_of(self.name.as_str()));
        text.push(' ');
        extend_chars(&mut text, &chars_of(self.content.as_str()));
        string_of(&text)
    }

    /// Reads a key back from an id.
    pub fn decode(id: &str) -> (res: Result<RecordKey, MalformedRecordId>)
        ensures
            match spec_decode(id@) {
                Some((t, name, content)) => res matches Ok(k) && k.record_type == t && k.name@
                    == name && k.content@ == content,
                None => res matches Err(e) && e.id@ == id@,
            },
    {
        let s = chars_of(id);
        let first = find_char(&s, 0, ' ');
        proof {
            lemma_split_from(s@, 0, first);
            assert(s@.subrange(0, s@.len() as int) == s@);
        }
        let i = match first {
            Some(i) => i,
            None => {
                return Err(MalformedRecordId { id: id.to_string() });
            },
        };
        let second = find_char(&s, i + 1, ' ');
        proof {
            lemma_split_from(s@, i + 1, second);
        }
        let j = match second {
            Some(j) => j,
            None => {
                return Err(MalformedRecordId { id: id.to_string() });
            },
        };
        let t = copy_range_chars(&s, 0, i);
        let a_name = record_type_name_chars(DnsRecordType::A);
        let aaaa_name = record_type_name_chars(DnsRecordType::AAAA);
        let cname_name = record_type_name_chars(DnsRecordType::CNAME);
        let txt_name = record_type_name_chars(DnsRecordType::TXT);
        let srv_name = record_type_name_chars(DnsRecordType::SRV);
        let record_type = if chars_eq(&t, &a_name) {
            DnsRecordType::A
        } else if chars_eq(&t, &aaaa_name) {
            DnsRecordType::AAAA
        } else if chars_eq(&t, &cname_name) {
            DnsRecordType::CNAME
        } else if chars_eq(&t, &txt_name) {
            DnsRecordType::TXT
        } else if chars_eq(&t, &srv_name) {
            DnsRecordType::SRV
        } else {
            return Err(MalformedRecordId { id: id.to_string() });
        };
        let name = copy_range_chars(&s, i + 1, j);
        let content = copy_range_chars(&s, j + 1, s.len());
        Ok(RecordKey { record_type, name: string_of(&name), content: string_of(&content) })
    }
}

/// Law: a key whose name holds no space reads back from its id unchanged
/// (the content may hold spaces).
pub proof fn law_record_key_roundtrip(record_type: DnsRecordType, name: Seq<char>, content: Seq<char>)
    requires
        !name.contains(' '),
    ensures
        spec_decode(spec_encode(record_type, name, content)) == Some((record_type, name, content)),
{
    let t = record_type_name(record_type);
    let id = spec_encode(record_type, name, content);
    let rest = name + seq![' '] + content;
    assert(id =~= t + seq![' '] + rest);
    assert(forall|j: int| 0 <= j < t.len() ==> t[j] != ' ');
    lemma_first_index_at(id, ' ', t.len() as int);
    assert(id.subrange(0, t.len() as int) =~= t);
    assert(id.subrange((t.len() + 1) as int, id.len() as int) =~= rest);
    assert forall|j: int| 0 <= j < name.len() implies rest[j] != ' ' by {
        assert(rest[j] == name[j]);
        if name[j] == ' ' {
            assert(name.contains(' '));
        }
    }
    lemma_first_index_at(rest, ' ', name.len() as int);
    assert(rest.subrange(0, name.len() as int) =~= name);
    assert(rest.subrange((name.len() + 1) as int, rest.len() as int) =~= content);
}

} // verus!

verus! {

use crate::text::{
    strip_suffix, trim, trim_end_char, trim_end_matches_char, trim_ws, ends_with_exec,
};

// ---------------------------------------------------------------------------
// API location
// ---------------------------------------------------------------------------
/// What `url::Url::parse` gives for a text: the URL's scheme and its
/// serialization (`Url::as_str`), or the parse error's message.
pub uninterp spec fn url_parse(text: Seq<char>) -> Result<(Seq<char>, Seq<char>), Seq<char>>;

/// Parses a URL with `url::Url::parse`. The contract names the outcome -
/// scheme and serialization, or the error's `Display` text - and does not
/// state the WHATWG URL rules.
#[verifier::external_body]
fn parse_url(text: &str) -> (res: Result<(String, String), String>)
    ensures
        match res {
            Ok((scheme, serialized)) => url_parse(text@) == Ok::<(Seq<char>, Seq<char>), Seq<char>>(
                (scheme@, serialized@),
            ),
            Err(message) => url_parse(text@) == Err::<(Seq<char>, Seq<char>), Seq<char>>(message@),
        },
{
    match url::Url::parse(text) {
        Ok(url) => Ok((url.scheme().to_string(), url.as_str().to_string())),
        Err(err) => Err(err.to_string()),
    }
}

/// The API root of a parsed URL serialization: trailing `/` dropped, then a
/// trailing `/api/v1`, then trailing `/` again.
pub open spec fn api_root(serialized: Seq<char>) -> Seq<char> {
    let s = trim_end_char(serialized, '/');
    let s = match strip_suffix(s, "/api/v1"@) {
        Some(r) => r,
        None => s,
    };
    trim_end_char(s, '/')
}

/// Accepts the webserver root with or without a trailing `/` or `/api/v1`:
/// the trimmed text must parse as an `http` or `https` URL.
pub open spec fn spec_normalize_api_url(url: Seq<char>) -> Result<Seq<char>, Seq<char>> {
    match url_parse(trim_ws(url)) {
        Err(message) => Err("powerdns: invalid api url: "@ + message),
        Ok((scheme, serialized)) => if scheme == "http"@ || scheme == "https"@ {
            Ok(api_root(serialized))
        } else {
            Err("powerdns: api url must be http or https"@)
        },
    }
}

/// Accepts the webserver root with or without a trailing `/` or `/api/v1`.
pub fn normalize_api_url(url: &str) -> (res: Result<String, String>)
    ensures
        match res {
            Ok(u) => spec_normalize_api_url(url@) == Ok::<Seq<char>, Seq<char>>(u@),
            Err(e) => spec_normalize_api_url(url@) == Err::<Seq<char>, Seq<char>>(e@),
        },
{
    let trimmed = string_of(&trim(&chars_of(url)));
    match parse_url(trimmed.as_str()) {
        Err(message) => {
            let mut text = chars_of("powerdns: invalid api url: ");
            extend_chars(&mut text, &chars_of(message.as_str()));
            Err(string_of(&text))
        },
        Ok((scheme, serialized)) => {
            let scheme_chars = chars_of(scheme.as_str());
            if chars_eq(&scheme_chars, &chars_of("http")) || chars_eq(
                &scheme_chars,
                &chars_of("https"),
            ) {
                let s = trim_end_matches_char(&chars_of(serialized.as_str()), '/');
                let suffix = chars_of("/api/v1");
                let s = if ends_with_exec(&s, &suffix) {
                    copy_range_chars(&s, 0, s.len() - suffix.len())
                } else {
                    s
                };
                Ok(string_of(&trim_end_matches_char(&s, '/')))
            } else {
                Err("powerdns: api url must be http or https".to_string())
            }
        },
    }
}

/// PowerDNS Authoritative only ever exposes the `localhost` server.
pub open spec fn zone_url(api_url: Seq<char>, zone: Seq<char>) -> Seq<char> {
    api_url + "/api/v1/servers/localhost/zones/"@ + spec_canonical(zone)
}

/// Where and how to reach a PowerDNS zone.
#[derive(Clone, Debug)]
pub struct PowerDnsConfig {
    /// `{api_url}/api/v1/servers/localhost/zones/{zone}.`
    pub zone_url: String,
    /// API key sent as `X-API-Key`.
    pub key: String,
}

/// The zone name a verification reports: the zone's name without its
/// trailing dots.
pub fn zone_name(name: &str) -> (res: String)
    ensures
        res@ == trim_end_char(name@, '.'),
{
    string_of(&trim_end_matches_char(&chars_of(name), '.'))
}

/// The settings of a PowerDNS client from the zone and the two fields of the
/// stored JSON credential: the API location must be a valid http(s) URL and
/// the key must not be empty.
pub fn powerdns_settings(zone: &str, api_url: &str, api_key: &str) -> (res: Result<
    PowerDnsConfig,
    String,
>)
    ensures
        match spec_normalize_api_url(api_url@) {
            Err(e) => res matches Err(m) && m@ == e,
            Ok(root) => if api_key@.len() == 0 {
                res matches Err(m) && m@ == "powerdns: api key is empty"@
            } else {
                res matches Ok(c) && c.zone_url@ == zone_url(root, zone@) && c.key@ == api_key@
            },
        },
{
    let root = match normalize_api_url(api_url) {
        Ok(root) => root,
        Err(e) => return Err(e),
    };
    let key = chars_of(api_key);
    if key.len() == 0 {
        return Err("powerdns: api key is empty".to_string());
    }
    let mut url = chars_of(root.as_str());
    extend_chars(&mut url, &chars_of("/api/v1/servers/localhost/zones/"));
    extend_chars(&mut url, &canonical_chars(&chars_of(zone)));
    Ok(PowerDnsConfig { zone_url: string_of(&url), key: api_key.to_string() })
}

} // verus!

verus! {

// ---------------------------------------------------------------------------
// RRsets
// ---------------------------------------------------------------------------
/// Used when a template asks for the provider's "auto" ttl.
pub open spec fn auto_ttl() -> u64 {
    300
}

/// One RRset of a zone response, as read from the JSON.
#[derive(Clone, Debug)]
pub struct RrsetEntry {
    /// `type`, when it is a string.
    pub record_type: Option<String>,
    /// `name`, when it is a string.
    pub name: Option<String>,
    /// `content` of each record whose content is a string, in order.
    pub contents: Vec<String>,
    /// `ttl`, when it is an unsigned integer.
    pub ttl: Option<u64>,
}

/// Current records (PowerDNS content strings) and ttl of one RRset.
#[derive(Clone, Debug)]
pub struct RrsetContents {
    pub contents: Vec<String>,
    pub ttl: Option<u64>,
}

/// The RRset for `name` and `record_type`: its type must be the type's name
/// and its name must equal `name` up to ASCII case.
pub open spec fn rrset_selected(e: RrsetEntry, name: Seq<char>, record_type: DnsRecordType) -> bool {
    &&& e.record_type matches Some(t) && t@ == record_type_name(record_type)
    &&& e.name matches Some(n) && eq_ignore_ascii_case(n@, name)
}

/// Law: only an RRset of the requested type whose name is the requested
/// name up to ASCII case is ever selected; an RRset of another name or type
/// never is.
pub proof fn law_selected_rrset_is_the_requested_one(e: RrsetEntry, name: Seq<char>, record_type: DnsRecordType)
    requires
        rrset_selected(e, name, record_type),
    ensures
        e.record_type matches Some(t) && t@ == record_type_name(record_type),
        e.name matches Some(n) && n@.len() == name.len() && forall|i: int|
            0 <= i < name.len() ==> crate::text::ascii_lower(#[trigger] n@[i])
                == crate::text::ascii_lower(name[i]),
{
}

/// The views of a list of strings.
pub open spec fn string_views(v: Seq<String>) -> Seq<Seq<char>> {
    v.map_values(|s: String| s@)
}

/// Picks the requested RRset out of a zone response (older PowerDNS versions
/// ignore the query filter and return every RRset): the first matching one,
/// or no records and no ttl.
pub fn select_rrset(rrsets: &[RrsetEntry], name: &str, record_type: DnsRecordType) -> (res: RrsetContents)
    ensures
        (exists|i: int| 0 <= i < rrsets@.len() && rrset_selected(rrsets@[i], name@, record_type))
            ==> exists|i: int|
            0 <= i < rrsets@.len() && rrset_selected(rrsets@[i], name@, record_type) && (forall|
                j: int,
            | 0 <= j < i ==> !rrset_selected(rrsets@[j], name@, record_type)) && string_views(
                res.contents@,
            ) == string_views(rrsets@[i].contents@) && res.ttl == rrsets@[i].ttl,
        (forall|i: int| 0 <= i < rrsets@.len() ==> !rrset_selected(rrsets@[i], name@, record_type))
            ==> res.contents@.len() == 0 && res.ttl is None,
{
    let wanted = record_type_name_chars(record_type);
    let name_chars = chars_of(name);
    let mut i: usize = 0;
    while i < rrsets.len()
        invariant
            i <= rrsets@.len(),
            wanted@ == record_type_name(record_type),
            name_chars@ == name@,
            forall|j: int| 0 <= j < i ==> !rrset_selected(rrsets@[j], name@, record_type),
        decreases rrsets@.len() - i,
    {
        let entry = &rrsets[i];
        let type_ok = match &entry.record_type {
            Some(t) => chars_eq(&chars_of(t.as_str()), &wanted),
            None => false,
        };
        let name_ok = match &entry.name {
            Some(n) => chars_eq_ignore_ascii_case(&chars_of(n.as_str()), &name_chars),
            None => false,
        };
        if type_ok && name_ok {
            let mut contents: Vec<String> = Vec::new();
            let mut k: usize = 0;
            while k < entry.contents.len()
                invariant
                    k <= entry.contents@.len(),
                    contents@.len() == k,
                    forall|m: int| 0 <= m < k ==> #[trigger] contents@[m]@ == entry.contents@[m]@,
                decreases entry.contents@.len() - k,
            {
                contents.push(entry.contents[k].clone());
                k = k + 1;
            }
            assert(string_views(contents@) =~= string_views(entry.contents@));
            return RrsetContents { contents, ttl: entry.ttl };
        }
        i = i + 1;
    }
    RrsetContents { contents: Vec::new(), ttl: None }
}

/// A record content of an RRset with what `IpAddr::from_str` gives for it.
#[derive(Clone, Debug)]
pub struct ContentEntry {
    pub content: String,
    pub reading: Option<IpValue>,
}

/// Whether an entry denotes the record with content `c` (read as `rc`).
pub open spec fn entry_matches(
    record_type: DnsRecordType,
    e: ContentEntry,
    c: Seq<char>,
    rc: Option<IpValue>,
) -> bool {
    spec_content_matches(record_type, e.content@, c, e.reading, rc)
}

/// The contents of a list of entries.
pub open spec fn entry_contents(es: Seq<ContentEntry>) -> Seq<Seq<char>> {
    es.map_values(|e: ContentEntry| e.content@)
}

/// The entries that do not denote the record with content `c`, in order.
pub open spec fn kept_entries(
    record_type: DnsRecordType,
    es: Seq<ContentEntry>,
    c: Seq<char>,
    rc: Option<IpValue>,
) -> Seq<ContentEntry>
    decreases es.len(),
{
    if es.len() == 0 {
        seq![]
    } else {
        let k = kept_entries(record_type, es.drop_last(), c, rc);
        if entry_matches(record_type, es.last(), c, rc) {
            k
        } else {
            k.push(es.last())
        }
    }
}

/// Whether some entry denotes the record with content `c`.
pub open spec fn any_entry_matches(
    record_type: DnsRecordType,
    es: Seq<ContentEntry>,
    c: Seq<char>,
    rc: Option<IpValue>,
) -> bool {
    exists|i: int| 0 <= i < es.len() && entry_matches(record_type, es[i], c, rc)
}

/// How to add a record to its RRset, and how it is remembered.
#[derive(Clone, Debug)]
pub struct CreatePlan {
    /// Canonical RRset name.
    pub name: String,
    pub record_type: DnsRecordType,
    pub ttl: u64,
    /// The whole RRset after the change (it is replaced as a whole).
    pub contents: Vec<String>,
    pub stored: StoredRecord,
}

/// The ttl PowerDNS gets for a template ttl: 300 stands in for "auto".
pub open spec fn powerdns_ttl(ttl: u32) -> u64 {
    if ttl == 0 {
        auto_ttl()
    } else {
        ttl as u64
    }
}

/// Plans adding `record` to its RRset, whose current contents are
/// `existing`: the content is appended unless a matching one is there.
/// `content_reading` is what `IpAddr::from_str` gives for `record.content`.
pub fn plan_create(
    record: &DnsRecordInput,
    existing: &[ContentEntry],
    content_reading: &Option<IpValue>,
) -> (res: CreatePlan)
    ensures
        res.name@ == spec_canonical(record.name@),
        res.record_type == record.record_type,
        res.ttl == powerdns_ttl(record.ttl),
        string_views(res.contents@) == (if any_entry_matches(
            record.record_type,
            existing@,
            spec_record_content(*record),
            *content_reading,
        ) {
            entry_contents(existing@)
        } else {
            entry_contents(existing@).push(spec_record_content(*record))
        }),
        res.stored.id@ == spec_encode(
            record.record_type,
            spec_canonical(record.name@),
            spec_record_content(*record),
        ),
        res.stored.record_type == record.record_type,
        res.stored.name@ == record.name@,
        res.stored.content@ == record.content@,
{
    let name = canonical(record.name.as_str());
    let content = record_content(record);
    let mut contents: Vec<String> = Vec::new();
    let mut found = false;
    let mut i: usize = 0;
    while i < existing.len()
        invariant
            i <= existing@.len(),
            string_views(contents@) == entry_contents(existing@.take(i as int)),
            found == exists|j: int|
                0 <= j < i && entry_matches(
                    record.record_type,
                    existing@[j],
                    content@,
                    *content_reading,
                ),
        decreases existing@.len() - i,
    {
        let e = &existing[i];
        if content_matches(
            record.record_type,
            e.content.as_str(),
            content.as_str(),
            &e.reading,
            content_reading,
        ) {
            found = true;
        }
        let ghost before = contents@;
        contents.push(e.content.clone());
        assert(existing@.take(i + 1) == existing@.take(i as int).push(existing@[i as int]));
        assert(string_views(contents@) =~= string_views(before).push(e.content@));
        assert(entry_contents(existing@.take(i + 1)) =~= entry_contents(existing@.take(i as int)).push(e.content@));
        i = i + 1;
    }
    assert(existing@.take(existing@.len() as int) == existing@);
    if !found {
        let ghost before = contents@;
        contents.push(content.clone());
        assert(string_views(contents@) =~= string_views(before).push(content@));
    }
    let key = RecordKey {
        record_type: record.record_type,
        name: name.clone(),
        content: content,
    };
    let ttl: u64 = if record.ttl == 0 { 300 } else { record.ttl as u64 };
    CreatePlan {
        name,
        record_type: record.record_type,
        ttl,
        contents,
        stored: StoredRecord {
            id: key.encode(),
            record_type: record.record_type,
            name: record.name.clone(),
            content: record.content.clone(),
        },
    }
}

/// What to do to an RRset when deleting one record from it.
#[derive(Clone, Debug)]
pub enum RrsetChange {
    /// The record is not there; nothing to send.
    Keep,
    /// The record was the last one: delete the RRset.
    Delete { name: String, record_type: DnsRecordType },
    /// Replace the RRset with the remaining records.
    Replace { name: String, record_type: DnsRecordType, ttl: u64, contents: Vec<String> },
}

/// Plans deleting the record `key` from its RRset with contents `existing`
/// and ttl `ttl`. `key_reading` is what `IpAddr::from_str` gives for
/// `key.content`. Every record matching the key goes.
pub fn plan_delete(
    key: &RecordKey,
    existing: &[ContentEntry],
    key_reading: &Option<IpValue>,
    ttl: Option<u64>,
) -> (res: RrsetChange)
    ensures
        ({
            let kept = kept_entries(key.record_type, existing@, key.content@, *key_reading);
            if kept.len() == existing@.len() {
                res is Keep
            } else if kept.len() == 0 {
                res matches RrsetChange::Delete { name, record_type } && name@ == key.name@
                    && record_type == key.record_type
            } else {
                res matches RrsetChange::Replace { name, record_type, ttl: t, contents } && name@
                    == key.name@ && record_type == key.record_type && t == (match ttl {
                    Some(v) => v,
                    None => auto_ttl(),
                }) && string_views(contents@) == entry_contents(kept)
            }
        }),
{
    let mut remaining: Vec<String> = Vec::new();
    let ghost mut kept: Seq<ContentEntry> = seq![];
    let mut i: usize = 0;
    while i < existing.len()
        invariant
            i <= existing@.len(),
            kept == kept_entries(key.record_type, existing@.take(i as int), key.content@, *key_reading),
            string_views(remaining@) == entry_contents(kept),
            kept.len() <= i,
        decreases existing@.len() - i,
    {
        let e = &existing[i];
        assert(existing@.take(i + 1).drop_last() == existing@.take(i as int));
        assert(existing@.take(i + 1).last() == existing@[i as int]);
        if !content_matches(
            key.record_type,
            e.content.as_str(),
            key.content.as_str(),
            &e.reading,
            key_reading,
        ) {
            proof {
                kept = kept.push(existing@[i as int]);
            }
            let ghost before = remaining@;
            remaining.push(e.content.clone());
            assert(string_views(remaining@) =~= string_views(before).push(e.content@));
            assert(entry_contents(kept) =~= entry_contents(kept.drop_last()).push(e.content@));
        }
        i = i + 1;
    }
    assert(existing@.take(existing@.len() as int) == existing@);
    if remaining.len() == existing.len() {
        RrsetChange::Keep
    } else if remaining.len() == 0 {
        RrsetChange::Delete { name: key.name.clone(), record_type: key.record_type }
    } else {
        RrsetChange::Replace {
            name: key.name.clone(),
            record_type: key.record_type,
            ttl: match ttl {
                Some(v) => v,
                None => 300,
            },
            contents: remaining,
        }
    }
}

/// Kept entries are exactly the entries that do not match, in order.
pub proof fn lemma_kept_entries(
    record_type: DnsRecordType,
    es: Seq<ContentEntry>,
    c: Seq<char>,
    rc: Option<IpValue>,
)
    ensures
        forall|k: int|
            0 <= k < kept_entries(record_type, es, c, rc).len() ==> !entry_matches(
                record_type,
                #[trigger] kept_entries(record_type, es, c, rc)[k],
                c,
                rc,
            ),
        kept_entries(record_type, es, c, rc).len() <= es.len(),
        !any_entry_matches(record_type, es, c, rc) ==> kept_entries(record_type, es, c, rc) == es,
    decreases es.len(),
{
    if es.len() > 0 {
        let p = es.drop_last();
        lemma_kept_entries(record_type, p, c, rc);
        let k = kept_entries(record_type, p, c, rc);
        if !any_entry_matches(record_type, es, c, rc) {
            assert(!any_entry_matches(record_type, p, c, rc)) by {
                if any_entry_matches(record_type, p, c, rc) {
                    let j = choose|j: int| 0 <= j < p.len() && entry_matches(record_type, p[j], c, rc);
                    assert(es[j] == p[j]);
                }
            }
            assert(!entry_matches(record_type, es.last(), c, rc)) by {
                assert(es[es.len() - 1] == es.last());
            }
            assert(p.push(es.last()) == es);
        }
        if !entry_matches(record_type, es.last(), c, rc) {
            assert forall|j: int| 0 <= j < k.push(es.last()).len() implies !entry_matches(
                record_type,
                #[trigger] k.push(es.last())[j],
                c,
                rc,
            ) by {
                if j < k.len() {
                    assert(k.push(es.last())[j] == k[j]);
                }
            }
        }
    }
}

/// Law: deleting a record removes everything matching it and keeps the rest
/// in order; when nothing matches, the RRset is left alone.
pub proof fn law_delete_removes_exactly_matches(
    record_type: DnsRecordType,
    es: Seq<ContentEntry>,
    c: Seq<char>,
    rc: Option<IpValue>,
)
    ensures
        forall|k: int|
            0 <= k < kept_entries(record_type, es, c, rc).len() ==> !entry_matches(
                record_type,
                #[trigger] kept_entries(record_type, es, c, rc)[k],
                c,
                rc,
            ),
        !any_entry_matches(record_type, es, c, rc) ==> kept_entries(record_type, es, c, rc) == es,
{
    lemma_kept_entries(record_type, es, c, rc);
}

/// Law: deleting a record right after adding it leaves what deleting it
/// from the RRset before the addition leaves - the added entry is removed.
pub proof fn law_delete_undoes_create(
    record_type: DnsRecordType,
    es: Seq<ContentEntry>,
    added: ContentEntry,
)
    ensures
        kept_entries(record_type, es.push(added), added.content@, added.reading) == kept_entries(
            record_type,
            es,
            added.content@,
            added.reading,
        ),
{
    assert(es.push(added).drop_last() == es);
    law_content_matches_reflexive(record_type, added.content@, added.reading);
}

} // verus!
