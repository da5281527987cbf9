//! The durable session record and its persisted form: a single JSON object
//! with the user id, device id, access token and optional refresh token.
//! Encoding and parsing are exact inverses, which is what lets a saved
//! session be restored unchanged after a restart.

use vstd::prelude::*;
use crate::text::{chars_of, string_of, push_all, check_at, sub_at};

verus! {

/// The credential bundle persisted per account: everything needed to
/// resume a session without re-authenticating.
#[derive(Clone, Debug, PartialEq)]
pub struct SessionRecord {
    pub user_id: String,
    pub device_id: String,
    pub access_token: String,
    pub refresh_token: Option<String>,
}

/// The mathematical value of a session record.
#[verifier::ext_equal]
pub struct SessionRecordView {
    pub user_id: Seq<char>,
    pub device_id: Seq<char>,
    pub access_token: Seq<char>,
    pub refresh_token: Option<Seq<char>>,
}

impl View for SessionRecord {
    type V = SessionRecordView;

    open spec fn view(&self) -> SessionRecordView {
        SessionRecordView {
            user_id: self.user_id@,
            device_id: self.device_id@,
            access_token: self.access_token@,
            refresh_token: match self.refresh_token {
                Some(t) => Some(t@),
                None => None,
            },
        }
    }
}

/// The escaped form of one character inside a JSON string: backslash and
/// double quote gain a backslash, everything else stands for itself.
pub open spec fn esc_char(c: char) -> Seq<char> {
    if c == '\\' {
        seq!['\\', '\\']
    } else if c == '"' {
        seq!['\\', '"']
    } else {
        seq![c]
    }
}

/// The escaped form of a whole string.
pub open spec fn esc_spec(s: Seq<char>) -> Seq<char>
    decreases s.len(),
{
    if s.len() == 0 {
        Seq::<char>::empty()
    } else {
        esc_char(s[0]) + esc_spec(s.drop_first())
    }
}

/// Escapes backslashes and double quotes for inclusion in a JSON string.
fn escape_json(v: &Vec<char>) -> (r: Vec<char>)
    ensures
        r@ == esc_spec(v@),
{
    let n = v.len();
    let mut out: Vec<char> = Vec::new();
    let mut i: usize = 0;
    proof {
        assert(v@.subrange(0, n as int) =~= v@);
        assert(Seq::<char>::empty() + esc_spec(v@) =~= esc_spec(v@));
    }
    while i < n
        invariant
            i <= n,
            n == v@.len(),
            esc_spec(v@) == out@ + esc_spec(v@.subrange(i as int, n as int)),
        decreases n - i,
    {
        let ghost rest = v@.subrange(i as int, n as int);
        proof {
            assert(rest.drop_first() =~= v@.subrange(i + 1, n as int));
        }
        let ghost out0 = out@;
        let c = v[i];
        if c == '\\' {
            out.push('\\');
            out.push('\\');
        } else if c == '"' {
            out.push('\\');
            out.push('"');
        } else {
            out.push(c);
        }
        proof {
            assert(out@ =~= out0 + esc_char(rest[0]));
            assert(out0 + (esc_char(rest[0]) + esc_spec(rest.drop_first())) =~= out@ + esc_spec(
                rest.drop_first(),
            ));
        }
        i = i + 1;
    }
    proof {
        assert(v@.subrange(n as int, n as int) =~= Seq::<char>::empty());
        assert(out@ + Seq::<char>::empty() =~= out@);
    }
    out
}

/// The persisted form of a record: a JSON object in fixed field order,
/// with `null` for an absent refresh token.
pub open spec fn encode_spec(r: SessionRecordView) -> Seq<char> {
    "{\"user_id\":\""@ + esc_spec(r.user_id) + "\",\"device_id\":\""@ + esc_spec(r.device_id)
        + "\",\"access_token\":\""@ + esc_spec(r.access_token) + (match r.refresh_token {
        None => "\",\"refresh_token\":null}"@,
        Some(t) => "\",\"refresh_token\":\""@ + esc_spec(t) + "\"}"@,
    })
}

/// Serializes a session record to its persisted JSON form.
pub fn encode_session_record(r: &SessionRecord) -> (out: String)
    ensures
        out@ == encode_spec(r@),
{
    let mut v = chars_of("{\"user_id\":\"");
    push_all(&mut v, &escape_json(&chars_of(r.user_id.as_str())));
    push_all(&mut v, &chars_of("\",\"device_id\":\""));
    push_all(&mut v, &escape_json(&chars_of(r.device_id.as_str())));
    push_all(&mut v, &chars_of("\",\"access_token\":\""));
    push_all(&mut v, &escape_json(&chars_of(r.access_token.as_str())));
    match &r.refresh_token {
        None => {
            push_all(&mut v, &chars_of("\",\"refresh_token\":null}"));
        },
        Some(t) => {
            push_all(&mut v, &chars_of("\",\"refresh_token\":\""));
            push_all(&mut v, &escape_json(&chars_of(t.as_str())));
            push_all(&mut v, &chars_of("\"}"));
        },
    }
    string_of(&v)
}

/// The string scanner: from position `i`, reads characters up to the first
/// unescaped double quote, which it consumes; a backslash must be followed
/// by a backslash or a quote, taken literally.
pub open spec fn scan_spec(v: Seq<char>, i: int) -> Option<(Seq<char>, int)>
    decreases v.len() - i,
{
    if i < 0 || i >= v.len() {
        None
    } else if v[i] == '"' {
        Some((Seq::<char>::empty(), i + 1))
    } else if v[i] == '\\' {
        if i + 1 < v.len() && (v[i + 1] == '\\' || v[i + 1] == '"') {
            match scan_spec(v, i + 2) {
                Some((s, j)) => Some((seq![v[i + 1]] + s, j)),
                None => None,
            }
        } else {
            None
        }
    } else {
        match scan_spec(v, i + 1) {
            Some((s, j)) => Some((seq![v[i]] + s, j)),
            None => None,
        }
    }
}

/// Reads an escaped string from position `i`, returning its value and the
/// position after the consumed closing quote.
fn scan_string(v: &Vec<char>, i: usize) -> (r: Option<(Vec<char>, usize)>)
    ensures
        match r {
            Some((s, j)) => scan_spec(v@, i as int) == Some((s@, j as int)),
            None => scan_spec(v@, i as int) is None,
        },
{
    let n = v.len();
    if i > n {
        return None;
    }
    let mut cur: Vec<char> = Vec::new();
    let mut k: usize = i;
    loop
        invariant
            i <= k <= n,
            n == v@.len(),
            scan_spec(v@, i as int) == (match scan_spec(v@, k as int) {
                Some((s, j)) => Some((cur@ + s, j)),
                None => None::<(Seq<char>, int)>,
            }),
        decreases n - k,
    {
        if k >= n {
            return None;
        }
        let c = v[k];
        if c == '"' {
            proof {
                assert(cur@ + Seq::<char>::empty() =~= cur@);
            }
            return Some((cur, k + 1));
        }
        if c == '\\' {
            if k + 1 < n && (v[k + 1] == '\\' || v[k + 1] == '"') {
                let ghost cur0 = cur@;
                cur.push(v[k + 1]);
                proof {
                    if let Some((s, j)) = scan_spec(v@, k + 2) {
                        assert(cur0 + (seq![v@[k + 1]] + s) =~= cur@ + s);
                    }
                }
                k = k + 2;
            } else {
                return None;
            }
        } else {
            let ghost cur0 = cur@;
            cur.push(c);
            proof {
                if let Some((s, j)) = scan_spec(v@, k + 1) {
                    assert(cur0 + (seq![v@[k as int]] + s) =~= cur@ + s);
                }
            }
            k = k + 1;
        }
    }
}

/// Scanning an escaped string followed by its closing quote recovers the
/// string and stops right after the quote.
pub proof fn lemma_scan_encoded(v: Seq<char>, i: int, s: Seq<char>)
    requires
        0 <= i,
        i + esc_spec(s).len() + 1 <= v.len(),
        v.subrange(i, i + esc_spec(s).len() + 1) == esc_spec(s).push('"'),
    ensures
        scan_spec(v, i) == Some((s, i + esc_spec(s).len() + 1)),
    decreases s.len(),
{
    let e = esc_spec(s);
    let w = v.subrange(i, i + e.len() + 1);
    if s.len() == 0 {
        assert(v[i] == w[0]);
        assert(v[i] == '"');
    } else {
        let c = s[0];
        let s2 = s.drop_first();
        let e2 = esc_spec(s2);
        assert(e == esc_char(c) + e2);
        if c == '\\' || c == '"' {
            assert(e[0] == '\\' && e[1] == c);
            assert(v[i] == w[0] && v[i + 1] == w[1]);
            assert(v[i] == '\\' && v[i + 1] == c);
            assert(v.subrange(i + 2, i + 2 + e2.len() + 1) =~= e2.push('"')) by {
                assert(forall|k: int|
                    0 <= k < e2.len() + 1 ==> #[trigger] v.subrange(i + 2, i + 2 + e2.len() + 1)[k]
                        == w[k + 2]);
            }
            lemma_scan_encoded(v, i + 2, s2);
            assert(seq![v[i + 1]] + s2 =~= s);
        } else {
            assert(e[0] == c);
            assert(v[i] == w[0]);
            assert(v[i] == c);
            assert(v.subrange(i + 1, i + 1 + e2.len() + 1) =~= e2.push('"')) by {
                assert(forall|k: int|
                    0 <= k < e2.len() + 1 ==> #[trigger] v.subrange(i + 1, i + 1 + e2.len() + 1)[k]
                        == w[k + 1]);
            }
            lemma_scan_encoded(v, i + 1, s2);
            assert(seq![v[i]] + s2 =~= s);
        }
    }
}

/// A literal is expected at position `i`: the position after it, if it is
/// there.
pub open spec fn expect_spec(v: Seq<char>, i: int, lit: Seq<char>) -> Option<int> {
    if sub_at(v, lit, i) {
        Some(i + lit.len() as int)
    } else {
        None
    }
}

fn expect_lit(v: &Vec<char>, i: usize, lit: &Vec<char>) -> (r: Option<usize>)
    ensures
        match r {
            Some(j) => expect_spec(v@, i as int, lit@) == Some(j as int),
            None => expect_spec(v@, i as int, lit@) is None,
        },
{
    let n = v.len();
    if i > n || lit.len() > n - i {
        return None;
    }
    if check_at(v, lit, i) {
        Some(i + lit.len())
    } else {
        None
    }
}

/// The parser for the persisted record form: the exact inverse of
/// `encode_spec`, rejecting anything else.
pub open spec fn parse_spec(v: Seq<char>) -> Option<SessionRecordView> {
    match expect_spec(v, 0, "{\"user_id\":\""@) {
        None => None,
        Some(i1) => match scan_spec(v, i1) {
            None => None,
            Some((uid, i2)) => match expect_spec(v, i2, ",\"device_id\":\""@) {
                None => None,
                Some(i3) => match scan_spec(v, i3) {
                    None => None,
                    Some((did, i4)) => match expect_spec(v, i4, ",\"access_token\":\""@) {
                        None => None,
                        Some(i5) => match scan_spec(v, i5) {
                            None => None,
                            Some((tok, i6)) => {
                                if sub_at(v, ",\"refresh_token\":null}"@, i6) && i6
                                    + ",\"refresh_token\":null}"@.len() == v.len() {
                                    Some(
                                        (SessionRecordView {
                                            user_id: uid,
                                            device_id: did,
                                            access_token: tok,
                                            refresh_token: None,
                                        }),
                                    )
                                } else {
                                    match expect_spec(v, i6, ",\"refresh_token\":\""@) {
                                        None => None,
                                        Some(i7) => match scan_spec(v, i7) {
                                            None => None,
                                            Some((rt, i8)) => {
                                                if sub_at(v, "}"@, i8) && i8 + "}"@.len()
                                                    == v.len() {
                                                    Some(
                                                        (SessionRecordView {
                                                            user_id: uid,
                                                            device_id: did,
                                                            access_token: tok,
                                                            refresh_token: Some(rt),
                                                        }),
                                                    )
                                                } else {
                                                    None
                                                }
                                            },
                                        },
                                    }
                                }
                            },
                        },
                    },
                },
            },
        },
    }
}

/// Parses the persisted JSON form of a session record; returns `None` for
/// anything the encoder cannot have produced.
pub fn parse_session_record(input: &str) -> (r: Option<SessionRecord>)
    ensures
        match r {
            Some(rec) => parse_spec(input@) == Some(rec@),
            None => parse_spec(input@) is None,
        },
{
    let v = chars_of(input);
    let n = v.len();
    let i1 = match expect_lit(&v, 0, &chars_of("{\"user_id\":\"")) {
        Some(j) => j,
        None => {
            return None;
        },
    };
    let (uid, i2) = match scan_string(&v, i1) {
        Some(p) => p,
        None => {
            return None;
        },
    };
    let i3 = match expect_lit(&v, i2, &chars_of(",\"device_id\":\"")) {
        Some(j) => j,
        None => {
            return None;
        },
    };
    let (did, i4) = match scan_string(&v, i3) {
        Some(p) => p,
        None => {
            return None;
        },
    };
    let i5 = match expect_lit(&v, i4, &chars_of(",\"access_token\":\"")) {
        Some(j) => j,
        None => {
            return None;
        },
    };
    let (tok, i6) = match scan_string(&v, i5) {
        Some(p) => p,
        None => {
            return None;
        },
    };
    let null_tail = chars_of(",\"refresh_token\":null}");
    if i6 <= n && null_tail.len() == n - i6 && check_at(&v, &null_tail, i6) {
        return Some(SessionRecord {
            user_id: string_of(&uid),
            device_id: string_of(&did),
            access_token: string_of(&tok),
            refresh_token: None,
        });
    }
    let i7 = match expect_lit(&v, i6, &chars_of(",\"refresh_token\":\"")) {
        Some(j) => j,
        None => {
            return None;
        },
    };
    let (rt, i8) = match scan_string(&v, i7) {
        Some(p) => p,
        None => {
            return None;
        },
    };
    let brace = chars_of("}");
    if i8 <= n && brace.len() == n - i8 && check_at(&v, &brace, i8) {
        return Some(SessionRecord {
            user_id: string_of(&uid),
            device_id: string_of(&did),
            access_token: string_of(&tok),
            refresh_token: Some(string_of(&rt)),
        });
    }
    None
}

/// Parsing inverts encoding: the persisted form of any record parses
/// back to that record, field for field.
#[verifier::rlimit(60)]
pub proof fn lemma_parse_encode(r: SessionRecordView)
    ensures
        parse_spec(encode_spec(r)) == Some(r),
{
    reveal_strlit("{\"user_id\":\"");
    reveal_strlit("\",\"device_id\":\"");
    reveal_strlit(",\"device_id\":\"");
    reveal_strlit("\",\"access_token\":\"");
    reveal_strlit(",\"access_token\":\"");
    reveal_strlit("\",\"refresh_token\":null}");
    reveal_strlit(",\"refresh_token\":null}");
    reveal_strlit("\",\"refresh_token\":\"");
    reveal_strlit(",\"refresh_token\":\"");
    reveal_strlit("\"}");
    reveal_strlit("}");
    let l1 = "{\"user_id\":\""@;
    let q2 = "\",\"device_id\":\""@;
    let m2 = ",\"device_id\":\""@;
    let q3 = "\",\"access_token\":\""@;
    let m3 = ",\"access_token\":\""@;
    let qn = "\",\"refresh_token\":null}"@;
    let mn = ",\"refresh_token\":null}"@;
    let qr = "\",\"refresh_token\":\""@;
    let mr = ",\"refresh_token\":\""@;
    let qe = "\"}"@;
    let me = "}"@;
    assert(q2 =~= seq!['"'] + m2);
    assert(q3 =~= seq!['"'] + m3);
    assert(qn =~= seq!['"'] + mn);
    assert(qr =~= seq!['"'] + mr);
    assert(qe =~= seq!['"'] + me);
    let e1 = esc_spec(r.user_id);
    let e2 = esc_spec(r.device_id);
    let e3 = esc_spec(r.access_token);
    let v = encode_spec(r);
    let p1 = l1.len() as int;
    let p2 = p1 + e1.len() + 1;
    let p3 = p2 + m2.len() as int;
    let p4 = p3 + e2.len() + 1;
    let p5 = p4 + m3.len() as int;
    let p6 = p5 + e3.len() + 1;
    match r.refresh_token {
        None => {
            assert(v == l1 + e1 + q2 + e2 + q3 + e3 + qn);
            assert(v.len() == p6 + mn.len());
            assert(v.subrange(0, p1) =~= l1);
            assert(expect_spec(v, 0, l1) == Some(p1));
            assert(v.subrange(p1, p2) =~= e1.push('"'));
            lemma_scan_encoded(v, p1, r.user_id);
            assert(v.subrange(p2, p3) =~= m2);
            assert(expect_spec(v, p2, m2) == Some(p3));
            assert(v.subrange(p3, p4) =~= e2.push('"'));
            lemma_scan_encoded(v, p3, r.device_id);
            assert(v.subrange(p4, p5) =~= m3);
            assert(expect_spec(v, p4, m3) == Some(p5));
            assert(v.subrange(p5, p6) =~= e3.push('"'));
            lemma_scan_encoded(v, p5, r.access_token);
            assert(v.subrange(p6, p6 + mn.len()) =~= mn);
            assert(sub_at(v, mn, p6));
            assert(parse_spec(v) matches Some(pr) && pr =~= r);
        },
        Some(t) => {
            let e4 = esc_spec(t);
            let p7 = p6 + mr.len() as int;
            let p8 = p7 + e4.len() + 1;
            assert(v == l1 + e1 + q2 + e2 + q3 + e3 + (qr + e4 + qe));
            assert(v.len() == p8 + me.len());
            assert(v.subrange(0, p1) =~= l1);
            assert(expect_spec(v, 0, l1) == Some(p1));
            assert(v.subrange(p1, p2) =~= e1.push('"'));
            lemma_scan_encoded(v, p1, r.user_id);
            assert(v.subrange(p2, p3) =~= m2);
            assert(expect_spec(v, p2, m2) == Some(p3));
            assert(v.subrange(p3, p4) =~= e2.push('"'));
            lemma_scan_encoded(v, p3, r.device_id);
            assert(v.subrange(p4, p5) =~= m3);
            assert(expect_spec(v, p4, m3) == Some(p5));
            assert(v.subrange(p5, p6) =~= e3.push('"'));
            lemma_scan_encoded(v, p5, r.access_token);
            assert(!(sub_at(v, mn, p6) && p6 + mn.len() == v.len())) by {
                if sub_at(v, mn, p6) && p6 + mn.len() == v.len() {
                    assert(v.subrange(p6, p6 + mn.len())[17] == mn[17]);
                    assert(v[p6 + 17] == 'n');
                    assert(v[p6 + 17] == qr[18]);
                }
            }
            assert(v.subrange(p6, p7) =~= mr);
            assert(expect_spec(v, p6, mr) == Some(p7));
            assert(v.subrange(p7, p8) =~= e4.push('"'));
            lemma_scan_encoded(v, p7, t);
            assert(v.subrange(p8, p8 + me.len()) =~= me);
            assert(sub_at(v, me, p8));
            assert(parse_spec(v) matches Some(pr) && pr =~= r);
        },
    }
}

} // verus!
