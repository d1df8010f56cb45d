//! The durable progress record: the rotation's sole persisted state — the
//! current account index and the two session names — together with its
//! persisted text form and the proof that a persisted record reads back
//! exactly as it was written.
//!
//! The text form is one flat object with three fixed keys. Names are
//! restricted to plain printable characters, so the codec never needs an
//! escape; the decoder accepts exactly the encoder's output and rejects
//! everything else.

use vstd::prelude::*;

verus! {

/// The rotation's sole durable state. Loaded once at startup; rewritten
/// whole after every transition.
pub struct ProgressRecord {
    /// The account the rotation currently works on.
    pub current_account_index: u64,
    /// The primary session's generated name; empty before the first
    /// successful provisioning.
    pub current_mawari_name: String,
    /// The secondary session's generated name; empty before the first
    /// successful provisioning.
    pub current_nexus_name: String,
}

/// A character the codec passes through untouched: printable ASCII less
/// the two characters that would need an escape.
pub open spec fn spec_plain_char(c: char) -> bool {
    &&& 32 <= c as u32 <= 126
    &&& c != '"'
    &&& c != '\\'
}

/// A text made only of plain characters.
pub open spec fn spec_plain(s: Seq<char>) -> bool {
    forall|k: int| 0 <= k < s.len() ==> spec_plain_char(#[trigger] s[k])
}

impl ProgressRecord {
    /// A record the codec round-trips: both names plain.
    pub open spec fn wf(self) -> bool {
        &&& spec_plain(self.current_mawari_name@)
        &&& spec_plain(self.current_nexus_name@)
    }

    /// The record a run starts from when nothing was persisted yet: the
    /// first account, no session names.
    pub fn initial() -> (r: ProgressRecord)
        ensures
            r.wf(),
            r.current_account_index == 0,
            r.current_mawari_name@.len() == 0,
            r.current_nexus_name@.len() == 0,
    {
        ProgressRecord {
            current_account_index: 0,
            current_mawari_name: String::new(),
            current_nexus_name: String::new(),
        }
    }
}

/// Whether `c` is a character the codec passes through untouched.
pub fn plain_char(c: char) -> (r: bool)
    ensures
        r == spec_plain_char(c),
{
    let u: u32 = c as u32;
    32 <= u && u <= 126 && c != '"' && c != '\\'
}

/// Whether a text is made only of plain characters.
pub fn is_plain(s: &str) -> (r: bool)
    ensures
        r == spec_plain(s@),
{
    let len: usize = s.unicode_len();
    let mut i: usize = 0;
    while i < len
        invariant
            len == s@.len(),
            0 <= i <= len,
            forall|k: int| 0 <= k < i ==> spec_plain_char(#[trigger] s@[k]),
        decreases len - i,
    {
        if !plain_char(s.get_char(i)) {
            return false;
        }
        i = i + 1;
    }
    true
}

/// The decimal digit standing for a value below ten.
pub open spec fn spec_digit_char(d: nat) -> char {
    if d == 0 {
        '0'
    } else if d == 1 {
        '1'
    } else if d == 2 {
        '2'
    } else if d == 3 {
        '3'
    } else if d == 4 {
        '4'
    } else if d == 5 {
        '5'
    } else if d == 6 {
        '6'
    } else if d == 7 {
        '7'
    } else if d == 8 {
        '8'
    } else {
        '9'
    }
}

/// Whether `c` is a decimal digit.
pub open spec fn spec_is_digit(c: char) -> bool {
    c == '0' || c == '1' || c == '2' || c == '3' || c == '4' || c == '5' || c == '6' || c == '7'
        || c == '8' || c == '9'
}

/// The value of a decimal digit.
pub open spec fn spec_digit_val(c: char) -> nat {
    if c == '0' {
        0
    } else if c == '1' {
        1
    } else if c == '2' {
        2
    } else if c == '3' {
        3
    } else if c == '4' {
        4
    } else if c == '5' {
        5
    } else if c == '6' {
        6
    } else if c == '7' {
        7
    } else if c == '8' {
        8
    } else {
        9
    }
}

/// The decimal digits of `n`, most significant first, without a leading
/// zero (except for zero itself).
pub open spec fn spec_dec_digits(n: nat) -> Seq<char>
    decreases n,
{
    if n < 10 {
        seq![spec_digit_char(n)]
    } else {
        spec_dec_digits(n / 10).push(spec_digit_char(n % 10))
    }
}

/// The value a run of decimal digits denotes.
pub open spec fn spec_parse_digits(s: Seq<char>) -> nat
    decreases s.len(),
{
    if s.len() == 0 {
        0
    } else {
        spec_parse_digits(s.drop_last()) * 10 + spec_digit_val(s.last())
    }
}

/// The digits of a value are a nonempty run of digits denoting it back.
pub proof fn lemma_digits_of_value(n: nat)
    ensures
        spec_dec_digits(n).len() >= 1,
        forall|k: int|
            0 <= k < spec_dec_digits(n).len() ==> spec_is_digit(#[trigger] spec_dec_digits(n)[k]),
        spec_parse_digits(spec_dec_digits(n)) == n,
    decreases n,
{
    if n < 10 {
        let s = spec_dec_digits(n);
        assert(s == seq![spec_digit_char(n)]);
        assert(s.len() == 1);
        assert(s.drop_last() =~= Seq::<char>::empty());
        assert(spec_parse_digits(s.drop_last()) == 0);
        assert(s.last() == spec_digit_char(n));
        assert(spec_parse_digits(s) == spec_parse_digits(s.drop_last()) * 10 + spec_digit_val(
            s.last(),
        ));
        assert(spec_digit_val(spec_digit_char(n)) == n);
    } else {
        lemma_digits_of_value(n / 10);
        let s = spec_dec_digits(n);
        let head = spec_dec_digits(n / 10);
        assert(s == head.push(spec_digit_char(n % 10)));
        assert(s.drop_last() =~= head);
        vstd::arithmetic::div_mod::lemma_mod_bound(n as int, 10);
        assert(spec_digit_val(s.last()) == n % 10);
        vstd::arithmetic::div_mod::lemma_fundamental_div_mod(n as int, 10);
        assert(forall|k: int| 0 <= k < head.len() ==> spec_is_digit(#[trigger] head[k]));
        assert forall|k: int| 0 <= k < s.len() implies spec_is_digit(#[trigger] s[k]) by {
            if k < head.len() {
                assert(s[k] == head[k]);
            }
        }
    }
}

/// One digit as text.
fn digit_str(d: u64) -> (s: &'static str)
    requires
        d < 10,
    ensures
        s@ == seq![spec_digit_char(d as nat)],
{
    proof {
        reveal_strlit("0");
        reveal_strlit("1");
        reveal_strlit("2");
        reveal_strlit("3");
        reveal_strlit("4");
        reveal_strlit("5");
        reveal_strlit("6");
        reveal_strlit("7");
        reveal_strlit("8");
        reveal_strlit("9");
    }
    let s: &'static str = if d == 0 {
        "0"
    } else if d == 1 {
        "1"
    } else if d == 2 {
        "2"
    } else if d == 3 {
        "3"
    } else if d == 4 {
        "4"
    } else if d == 5 {
        "5"
    } else if d == 6 {
        "6"
    } else if d == 7 {
        "7"
    } else if d == 8 {
        "8"
    } else {
        "9"
    };
    proof {
        assert(s@ =~= seq![spec_digit_char(d as nat)]);
    }
    s
}

/// A value in decimal.
fn encode_u64(n: u64) -> (s: String)
    ensures
        s@ == spec_dec_digits(n as nat),
    decreases n,
{
    if n < 10 {
        String::from_str(digit_str(n))
    } else {
        let mut s = encode_u64(n / 10);
        s.append(digit_str(n % 10));
        proof {
            assert(s@ =~= spec_dec_digits((n / 10) as nat).push(
                spec_digit_char((n % 10) as nat),
            ));
        }
        s
    }
}

/// Whether the text carries exactly `lit` at position `pos`.
fn match_lit(s: &str, pos: usize, lit: &str) -> (r: bool)
    requires
        pos <= s@.len(),
    ensures
        r == (pos + lit@.len() <= s@.len() && s@.subrange(pos as int, pos + lit@.len()) == lit@),
{
    let s_len: usize = s.unicode_len();
    let l_len: usize = lit.unicode_len();
    if l_len > s_len - pos {
        return false;
    }
    let mut j: usize = 0;
    while j < l_len
        invariant
            s_len == s@.len(),
            l_len == lit@.len(),
            pos + l_len <= s_len,
            0 <= j <= l_len,
            forall|k: int| 0 <= k < j ==> s@[pos + k] == lit@[k],
        decreases l_len - j,
    {
        if s.get_char(pos + j) != lit.get_char(j) {
            proof {
                assert(s@.subrange(pos as int, pos + lit@.len())[j as int] != lit@[j as int]);
            }
            return false;
        }
        j = j + 1;
    }
    proof {
        assert(s@.subrange(pos as int, pos + lit@.len()) =~= lit@);
    }
    true
}

/// Where the digit run starting at `pos` ends, and the value it denotes —
/// or nothing for the value when the run denotes more than a `u64` holds.
fn scan_digits(s: &str, pos: usize) -> (r: (usize, Option<u64>))
    requires
        pos <= s@.len(),
    ensures
        pos <= r.0 <= s@.len(),
        forall|k: int| pos <= k < r.0 ==> spec_is_digit(#[trigger] s@[k]),
        r.0 < s@.len() ==> !spec_is_digit(s@[r.0 as int]),
        r.1 matches Some(v) ==> v == spec_parse_digits(s@.subrange(pos as int, r.0 as int)),
        r.1 is None ==> spec_parse_digits(s@.subrange(pos as int, r.0 as int)) > u64::MAX,
{
    let s_len: usize = s.unicode_len();
    let mut end: usize = pos;
    let mut val: u64 = 0;
    let mut overflow: bool = false;
    while end < s_len && is_digit_char(s.get_char(end))
        invariant
            s_len == s@.len(),
            pos <= end <= s_len,
            forall|k: int| pos <= k < end ==> spec_is_digit(#[trigger] s@[k]),
            !overflow ==> val == spec_parse_digits(s@.subrange(pos as int, end as int)),
            overflow ==> spec_parse_digits(s@.subrange(pos as int, end as int)) > u64::MAX,
        decreases s_len - end,
    {
        let c = s.get_char(end);
        let d: u64 = digit_val_char(c);
        let ghost prefix = s@.subrange(pos as int, end as int);
        let ghost extended = s@.subrange(pos as int, end + 1);
        proof {
            assert(extended.drop_last() =~= prefix);
            assert(extended.last() == s@[end as int]);
            assert(spec_parse_digits(extended) == spec_parse_digits(prefix) * 10
                + spec_digit_val(s@[end as int]));
        }
        if !overflow {
            match val.checked_mul(10) {
                Some(t) => {
                    match t.checked_add(d) {
                        Some(v) => {
                            val = v;
                        },
                        None => {
                            overflow = true;
                        },
                    }
                },
                None => {
                    overflow = true;
                },
            }
        }
        end = end + 1;
    }
    if overflow {
        (end, None)
    } else {
        (end, Some(val))
    }
}

/// Whether `c` is a decimal digit.
fn is_digit_char(c: char) -> (r: bool)
    ensures
        r == spec_is_digit(c),
{
    c == '0' || c == '1' || c == '2' || c == '3' || c == '4' || c == '5' || c == '6' || c == '7'
        || c == '8' || c == '9'
}

/// The value of a decimal digit.
fn digit_val_char(c: char) -> (d: u64)
    requires
        spec_is_digit(c),
    ensures
        d == spec_digit_val(c),
        d < 10,
{
    if c == '0' {
        0
    } else if c == '1' {
        1
    } else if c == '2' {
        2
    } else if c == '3' {
        3
    } else if c == '4' {
        4
    } else if c == '5' {
        5
    } else if c == '6' {
        6
    } else if c == '7' {
        7
    } else if c == '8' {
        8
    } else {
        9
    }
}

/// A name written from `pos` ends at `q`: everything between is plain, and
/// the closing quote stands at `q`. At most one `q` can satisfy this.
pub open spec fn spec_name_ends_at(s: Seq<char>, pos: int, q: int) -> bool {
    &&& pos <= q < s.len()
    &&& s[q] == '"'
    &&& forall|k: int| pos <= k < q ==> spec_plain_char(#[trigger] s[k])
}

/// Where the name written at `pos` ends — the position of its closing
/// quote — or nothing when no closing quote follows a plain run.
fn scan_name(s: &str, pos: usize) -> (r: Option<usize>)
    requires
        pos <= s@.len(),
    ensures
        r matches Some(q) ==> pos <= q < s@.len() && spec_name_ends_at(s@, pos as int, q as int),
        r is None ==> forall|q: int| !spec_name_ends_at(s@, pos as int, q),
{
    let s_len: usize = s.unicode_len();
    let mut i: usize = pos;
    while i < s_len
        invariant
            s_len == s@.len(),
            pos <= i <= s_len,
            forall|k: int| pos <= k < i ==> spec_plain_char(#[trigger] s@[k]),
        decreases s_len - i,
    {
        let c = s.get_char(i);
        if c == '"' {
            return Some(i);
        }
        if !plain_char(c) {
            proof {
                assert forall|q: int| !spec_name_ends_at(s@, pos as int, q) by {
                    if pos <= q < s@.len() && s@[q] == '"' {
                        assert(q != i);
                        if q > i {
                            assert(!spec_plain_char(s@[i as int]));
                        }
                        if q < i {
                            assert(spec_plain_char(s@[q]));
                        }
                    }
                }
            }
            return None;
        }
        i = i + 1;
    }
    proof {
        assert forall|q: int| !spec_name_ends_at(s@, pos as int, q) by {
            if pos <= q < s@.len() && s@[q] == '"' {
                assert(spec_plain_char(s@[q]));
            }
        }
    }
    None
}

/// The persisted text of a record with the given fields.
pub open spec fn spec_encode_views(index: u64, mawari: Seq<char>, nexus: Seq<char>) -> Seq<char> {
    "{\"current_account_index\":"@ + spec_dec_digits(index as nat)
        + ",\"current_mawari_name\":\""@ + mawari + "\",\"current_nexus_name\":\""@ + nexus
        + "\"}"@
}

/// The persisted text of a record.
pub open spec fn spec_encode(r: ProgressRecord) -> Seq<char> {
    spec_encode_views(r.current_account_index, r.current_mawari_name@, r.current_nexus_name@)
}

/// Writes a record in its persisted text form.
pub fn encode_record(r: &ProgressRecord) -> (s: String)
    ensures
        s@ == spec_encode(*r),
{
    let mut s = String::from_str("{\"current_account_index\":");
    let digits = encode_u64(r.current_account_index);
    s.append(digits.as_str());
    s.append(",\"current_mawari_name\":\"");
    s.append(r.current_mawari_name.as_str());
    s.append("\",\"current_nexus_name\":\"");
    s.append(r.current_nexus_name.as_str());
    s.append("\"}");
    s
}

/// Whether `s` is the persisted text of a well-formed record with the
/// given fields.
pub open spec fn spec_encodes(s: Seq<char>, index: u64, mawari: Seq<char>, nexus: Seq<char>) -> bool {
    &&& spec_plain(mawari)
    &&& spec_plain(nexus)
    &&& s == spec_encode_views(index, mawari, nexus)
}

/// Every positional fact about a canonical encoding: where each piece
/// stands and what delimits it.
proof fn lemma_structure_facts(s: Seq<char>, index: u64, mawari: Seq<char>, nexus: Seq<char>)
    requires
        spec_encodes(s, index, mawari, nexus),
    ensures
        ({
            let a = "{\"current_account_index\":"@.len() as int;
            let p1 = a + spec_dec_digits(index as nat).len();
            let p2 = p1 + ",\"current_mawari_name\":\""@.len();
            let p3 = p2 + mawari.len();
            let p4 = p3 + "\",\"current_nexus_name\":\""@.len();
            let p5 = p4 + nexus.len();
            &&& s.len() == p5 + "\"}"@.len()
            &&& a <= s.len()
            &&& s.subrange(0, a) == "{\"current_account_index\":"@
            &&& forall|k: int| a <= k < p1 ==> spec_is_digit(#[trigger] s[k])
            &&& p1 < s.len()
            &&& !spec_is_digit(s[p1])
            &&& spec_parse_digits(s.subrange(a, p1)) == index
            &&& s.subrange(p1, p2) == ",\"current_mawari_name\":\""@
            &&& spec_name_ends_at(s, p2, p3)
            &&& s.subrange(p2, p3) == mawari
            &&& s.subrange(p3, p4) == "\",\"current_nexus_name\":\""@
            &&& spec_name_ends_at(s, p4, p5)
            &&& s.subrange(p4, p5) == nexus
            &&& s.subrange(p5, s.len() as int) == "\"}"@
        }),
{
    reveal_strlit("{\"current_account_index\":");
    reveal_strlit(",\"current_mawari_name\":\"");
    reveal_strlit("\",\"current_nexus_name\":\"");
    reveal_strlit("\"}");
    lemma_digits_of_value(index as nat);
    let lit1 = "{\"current_account_index\":"@;
    let lit2 = ",\"current_mawari_name\":\""@;
    let lit3 = "\",\"current_nexus_name\":\""@;
    let lit4 = "\"}"@;
    let dd = spec_dec_digits(index as nat);
    let a = lit1.len() as int;
    let p1 = a + dd.len();
    let p2 = p1 + lit2.len();
    let p3 = p2 + mawari.len();
    let p4 = p3 + lit3.len();
    let p5 = p4 + nexus.len();
    let t1 = lit1 + dd;
    let t2 = t1 + lit2;
    let t3 = t2 + mawari;
    let t4 = t3 + lit3;
    let t5 = t4 + nexus;
    assert(s == t5 + lit4);
    assert(s.subrange(0, a) =~= lit1);
    assert(s.subrange(a, p1) =~= dd);
    assert(s.subrange(p1, p2) =~= lit2);
    assert(s.subrange(p2, p3) =~= mawari);
    assert(s.subrange(p3, p4) =~= lit3);
    assert(s.subrange(p4, p5) =~= nexus);
    assert(s.subrange(p5, s.len() as int) =~= lit4);
    assert forall|k: int| a <= k < p1 implies spec_is_digit(#[trigger] s[k]) by {
        assert(s.subrange(a, p1)[k - a] == s[k]);
        assert(spec_is_digit(dd[k - a]));
    }
    assert(s[p1] == lit2[0]);
    assert(s[p3] == lit3[0]);
    assert(s[p5] == lit4[0]);
    assert forall|k: int| p2 <= k < p3 implies spec_plain_char(#[trigger] s[k]) by {
        assert(s.subrange(p2, p3)[k - p2] == s[k]);
        assert(spec_plain_char(mawari[k - p2]));
    }
    assert forall|k: int| p4 <= k < p5 implies spec_plain_char(#[trigger] s[k]) by {
        assert(s.subrange(p4, p5)[k - p4] == s[k]);
        assert(spec_plain_char(nexus[k - p4]));
    }
    assert(s.subrange(a, p1) == dd);
}

/// Two digit runs from the same start, each ended by the text's end or a
/// non-digit, end at the same place.
proof fn lemma_digit_run_end_unique(s: Seq<char>, pos: int, e1: int, e2: int)
    requires
        pos <= e1 <= s.len(),
        pos <= e2 <= s.len(),
        forall|k: int| pos <= k < e1 ==> spec_is_digit(#[trigger] s[k]),
        forall|k: int| pos <= k < e2 ==> spec_is_digit(#[trigger] s[k]),
        e1 == s.len() || !spec_is_digit(s[e1]),
        e2 == s.len() || !spec_is_digit(s[e2]),
    ensures
        e1 == e2,
{
    if e1 < e2 {
        assert(spec_is_digit(s[e1]));
    } else if e2 < e1 {
        assert(spec_is_digit(s[e2]));
    }
}

/// A name written at one position has at most one closing quote.
proof fn lemma_name_end_unique(s: Seq<char>, pos: int, q1: int, q2: int)
    requires
        spec_name_ends_at(s, pos, q1),
        spec_name_ends_at(s, pos, q2),
    ensures
        q1 == q2,
{
    if q1 < q2 {
        assert(spec_plain_char(s[q1]));
    } else if q2 < q1 {
        assert(spec_plain_char(s[q2]));
    }
}

/// Law: the persisted text determines the record. Two well-formed records
/// with the same text agree on the index and both names, so a record read
/// back from its own text — a crash-resume — is identical to the record
/// written.
pub proof fn lemma_persisted_text_unique(
    s: Seq<char>,
    index1: u64,
    mawari1: Seq<char>,
    nexus1: Seq<char>,
    index2: u64,
    mawari2: Seq<char>,
    nexus2: Seq<char>,
)
    requires
        spec_encodes(s, index1, mawari1, nexus1),
        spec_encodes(s, index2, mawari2, nexus2),
    ensures
        index1 == index2,
        mawari1 == mawari2,
        nexus1 == nexus2,
{
    lemma_structure_facts(s, index1, mawari1, nexus1);
    lemma_structure_facts(s, index2, mawari2, nexus2);
    let a = "{\"current_account_index\":"@.len() as int;
    let b = ",\"current_mawari_name\":\""@.len() as int;
    let c = "\",\"current_nexus_name\":\""@.len() as int;
    let d1 = a + spec_dec_digits(index1 as nat).len();
    let d2 = a + spec_dec_digits(index2 as nat).len();
    lemma_digit_run_end_unique(s, a, d1, d2);
    assert(spec_parse_digits(s.subrange(a, d1)) == index1);
    assert(spec_parse_digits(s.subrange(a, d2)) == index2);
    let p2 = d1 + b;
    lemma_name_end_unique(s, p2, p2 + mawari1.len(), p2 + mawari2.len());
    assert(mawari1 == s.subrange(p2, p2 + mawari1.len()));
    assert(mawari2 == s.subrange(p2, p2 + mawari2.len()));
    let p4 = p2 + mawari1.len() + c;
    lemma_name_end_unique(s, p4, p4 + nexus1.len(), p4 + nexus2.len());
    assert(nexus1 == s.subrange(p4, p4 + nexus1.len()));
    assert(nexus2 == s.subrange(p4, p4 + nexus2.len()));
}

/// Law: a crash-resume is exact. A well-formed record whose persisted text
/// equals that of another well-formed record carries the same index and
/// the same two names; with `decode_record`'s contract, reloading a
/// persisted record yields it unchanged.
pub proof fn lemma_persist_reload_roundtrip(saved: ProgressRecord, loaded: ProgressRecord)
    requires
        saved.wf(),
        loaded.wf(),
        spec_encode(loaded) == spec_encode(saved),
    ensures
        loaded.current_account_index == saved.current_account_index,
        loaded.current_mawari_name@ == saved.current_mawari_name@,
        loaded.current_nexus_name@ == saved.current_nexus_name@,
{
    lemma_persisted_text_unique(
        spec_encode(saved),
        saved.current_account_index,
        saved.current_mawari_name@,
        saved.current_nexus_name@,
        loaded.current_account_index,
        loaded.current_mawari_name@,
        loaded.current_nexus_name@,
    );
}

/// Reads a record back from its persisted text. Exactly the texts the
/// encoder writes for well-formed records are accepted: a decoded record
/// is well formed and re-encodes to the very text, and a rejected text is
/// the encoding of no well-formed record.
#[verifier::rlimit(50)]
pub fn decode_record(s: &str) -> (r: Option<ProgressRecord>)
    ensures
        r matches Some(rec) ==> rec.wf() && spec_encode(rec) == s@,
        r is None ==> forall|index: u64, mawari: Seq<char>, nexus: Seq<char>|
            !#[trigger] spec_encodes(s@, index, mawari, nexus),
{
    let len: usize = s.unicode_len();
    let lit1: &str = "{\"current_account_index\":";
    let lit2: &str = ",\"current_mawari_name\":\"";
    let lit3: &str = "\",\"current_nexus_name\":\"";
    let lit4: &str = "\"}";
    if !match_lit(s, 0, lit1) {
        proof {
            assert forall|index: u64, mawari: Seq<char>, nexus: Seq<char>|
                !#[trigger] spec_encodes(s@, index, mawari, nexus) by {
                if spec_encodes(s@, index, mawari, nexus) {
                    lemma_structure_facts(s@, index, mawari, nexus);
                }
            }
        }
        return None;
    }
    let a: usize = lit1.unicode_len();
    let (dend, vopt) = scan_digits(s, a);
    let value: u64 = match vopt {
        Some(v) => v,
        None => {
            proof {
                assert forall|index: u64, mawari: Seq<char>, nexus: Seq<char>|
                    !#[trigger] spec_encodes(s@, index, mawari, nexus) by {
                    if spec_encodes(s@, index, mawari, nexus) {
                        lemma_structure_facts(s@, index, mawari, nexus);
                        lemma_digit_run_end_unique(
                            s@,
                            a as int,
                            dend as int,
                            a + spec_dec_digits(index as nat).len(),
                        );
                    }
                }
            }
            return None;
        },
    };
    if !match_lit(s, dend, lit2) {
        proof {
            assert forall|index: u64, mawari: Seq<char>, nexus: Seq<char>|
                !#[trigger] spec_encodes(s@, index, mawari, nexus) by {
                if spec_encodes(s@, index, mawari, nexus) {
                    lemma_structure_facts(s@, index, mawari, nexus);
                    lemma_digit_run_end_unique(
                        s@,
                        a as int,
                        dend as int,
                        a + spec_dec_digits(index as nat).len(),
                    );
                }
            }
        }
        return None;
    }
    let m_start: usize = dend + lit2.unicode_len();
    let mend: usize = match scan_name(s, m_start) {
        Some(q) => q,
        None => {
            proof {
                assert forall|index: u64, mawari: Seq<char>, nexus: Seq<char>|
                    !#[trigger] spec_encodes(s@, index, mawari, nexus) by {
                    if spec_encodes(s@, index, mawari, nexus) {
                        lemma_structure_facts(s@, index, mawari, nexus);
                        lemma_digit_run_end_unique(
                            s@,
                            a as int,
                            dend as int,
                            a + spec_dec_digits(index as nat).len(),
                        );
                        assert(spec_name_ends_at(s@, m_start as int, m_start + mawari.len()));
                    }
                }
            }
            return None;
        },
    };
    let mawari_name: String = String::from_str(s.substring_char(m_start, mend));
    if !match_lit(s, mend, lit3) {
        proof {
            assert forall|index: u64, mawari: Seq<char>, nexus: Seq<char>|
                !#[trigger] spec_encodes(s@, index, mawari, nexus) by {
                if spec_encodes(s@, index, mawari, nexus) {
                    lemma_structure_facts(s@, index, mawari, nexus);
                    lemma_digit_run_end_unique(
                        s@,
                        a as int,
                        dend as int,
                        a + spec_dec_digits(index as nat).len(),
                    );
                    lemma_name_end_unique(
                        s@,
                        m_start as int,
                        mend as int,
                        m_start + mawari.len(),
                    );
                }
            }
        }
        return None;
    }
    let x_start: usize = mend + lit3.unicode_len();
    let xend: usize = match scan_name(s, x_start) {
        Some(q) => q,
        None => {
            proof {
                assert forall|index: u64, mawari: Seq<char>, nexus: Seq<char>|
                    !#[trigger] spec_encodes(s@, index, mawari, nexus) by {
                    if spec_encodes(s@, index, mawari, nexus) {
                        lemma_structure_facts(s@, index, mawari, nexus);
                        lemma_digit_run_end_unique(
                            s@,
                            a as int,
                            dend as int,
                            a + spec_dec_digits(index as nat).len(),
                        );
                        lemma_name_end_unique(
                            s@,
                            m_start as int,
                            mend as int,
                            m_start + mawari.len(),
                        );
                        assert(spec_name_ends_at(s@, x_start as int, x_start + nexus.len()));
                    }
                }
            }
            return None;
        },
    };
    let nexus_name: String = String::from_str(s.substring_char(x_start, xend));
    let tail_ok: bool = match_lit(s, xend, lit4) && xend + lit4.unicode_len() == len;
    if !tail_ok {
        proof {
            assert forall|index: u64, mawari: Seq<char>, nexus: Seq<char>|
                !#[trigger] spec_encodes(s@, index, mawari, nexus) by {
                if spec_encodes(s@, index, mawari, nexus) {
                    lemma_structure_facts(s@, index, mawari, nexus);
                    lemma_digit_run_end_unique(
                        s@,
                        a as int,
                        dend as int,
                        a + spec_dec_digits(index as nat).len(),
                    );
                    lemma_name_end_unique(s@, m_start as int, mend as int, m_start + mawari.len());
                    lemma_name_end_unique(s@, x_start as int, xend as int, x_start + nexus.len());
                }
            }
        }
        return None;
    }
    let rec = ProgressRecord {
        current_account_index: value,
        current_mawari_name: mawari_name,
        current_nexus_name: nexus_name,
    };
    let encoded = encode_record(&rec);
    if crate::text::str_eq(encoded.as_str(), s) {
        proof {
            assert(rec.wf());
        }
        Some(rec)
    } else {
        proof {
            assert forall|index: u64, mawari: Seq<char>, nexus: Seq<char>|
                !#[trigger] spec_encodes(s@, index, mawari, nexus) by {
                if spec_encodes(s@, index, mawari, nexus) {
                    lemma_structure_facts(s@, index, mawari, nexus);
                    lemma_digit_run_end_unique(
                        s@,
                        a as int,
                        dend as int,
                        a + spec_dec_digits(index as nat).len(),
                    );
                    lemma_name_end_unique(s@, m_start as int, mend as int, m_start + mawari.len());
                    lemma_name_end_unique(s@, x_start as int, xend as int, x_start + nexus.len());
                    assert(rec.current_account_index == index);
                    assert(rec.current_mawari_name@ == mawari);
                    assert(rec.current_nexus_name@ == nexus);
                    assert(encoded@ == s@);
                }
            }
        }
        None
    }
}

} // verus!
