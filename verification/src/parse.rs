//! The executable document parser, proved to compute exactly what the
//! grammar's spec functions say.

use vstd::prelude::*;
use crate::json::{
    doc_view, has_kw, is_ws, kw_false, kw_null, kw_true, lemma_parse_doc_member_len,
    lemma_parse_member_len, lemma_parse_members_len, mems_view, objs_view, parse_doc_member,
    parse_doc_members, parse_doc_val, parse_document, parse_member, parse_members, parse_items,
    parse_num, parse_num_rec, parse_scalar, parse_str_body, skip_ws, DocMember, DocVal, Member,
    Scalar,
};

verus! {

fn is_ws_char(c: char) -> (b: bool)
    ensures
        b == is_ws(c),
{
    c == ' ' || c == '\n' || c == '\t' || c == '\r'
}

fn e_ws(v: &Vec<char>, i: usize) -> (j: usize)
    requires
        i <= v.len(),
    ensures
        i <= j <= v.len(),
        skip_ws(v@.skip(i as int)) == v@.skip(j as int),
{
    let mut j = i;
    while j < v.len() && is_ws_char(v[j])
        invariant
            i <= j <= v.len(),
            skip_ws(v@.skip(i as int)) == skip_ws(v@.skip(j as int)),
        decreases v.len() - j,
    {
        proof {
            assert(v@.skip(j as int).drop_first() =~= v@.skip(j as int + 1));
        }
        j += 1;
    }
    j
}

fn e_num_rec(v: &Vec<char>, i: usize, acc: u64) -> (r: Option<(u64, usize)>)
    requires
        i <= v.len(),
    ensures
        match r {
            Option::Some(p) => i <= p.1 <= v.len() && parse_num_rec(v@.skip(i as int), acc)
                == Option::Some((p.0, v@.skip(p.1 as int))),
            Option::None => parse_num_rec(v@.skip(i as int), acc) is None,
        },
    decreases v.len() - i,
{
    if i < v.len() {
        let cu = v[i] as u32;
        if 48 <= cu && cu <= 57 {
            let d = (cu - 48) as u64;
            if acc <= (18446744073709551615u64 - d) / 10 {
                let acc2 = acc * 10 + d;
                proof {
                    assert(v@.skip(i as int).drop_first() =~= v@.skip(i as int + 1));
                }
                return e_num_rec(v, i + 1, acc2);
            } else {
                return Option::None;
            }
        }
    }
    Option::Some((acc, i))
}

fn e_num(v: &Vec<char>, i: usize) -> (r: Option<(u64, usize)>)
    requires
        i <= v.len(),
    ensures
        match r {
            Option::Some(p) => i <= p.1 <= v.len() && parse_num(v@.skip(i as int))
                == Option::Some((p.0, v@.skip(p.1 as int))),
            Option::None => parse_num(v@.skip(i as int)) is None,
        },
{
    if i < v.len() {
        let cu = v[i] as u32;
        if 48 <= cu && cu <= 57 {
            return e_num_rec(v, i, 0);
        }
    }
    Option::None
}

fn e_str_body(v: &Vec<char>, i: usize) -> (r: Option<(Vec<char>, usize)>)
    requires
        i <= v.len(),
    ensures
        match r {
            Option::Some(p) => i <= p.1 <= v.len() && parse_str_body(v@.skip(i as int))
                == Option::Some((p.0@, v@.skip(p.1 as int))),
            Option::None => parse_str_body(v@.skip(i as int)) is None,
        },
    decreases v.len() - i,
{
    if i >= v.len() {
        return Option::None;
    }
    let c = v[i];
    if c == '"' {
        let out: Vec<char> = Vec::new();
        proof {
            assert(v@.skip(i as int).drop_first() =~= v@.skip(i as int + 1));
            assert(out@ =~= Seq::<char>::empty());
        }
        return Option::Some((out, i + 1));
    }
    if c == '\\' {
        if i + 1 < v.len() {
            let e = v[i + 1];
            if e == '"' || e == '\\' || e == '/' || e == 'n' || e == 't' || e == 'r' {
                let u = if e == 'n' {
                    '\n'
                } else if e == 't' {
                    '\t'
                } else if e == 'r' {
                    '\r'
                } else {
                    e
                };
                proof {
                    assert(v@.skip(i as int).skip(2) =~= v@.skip(i as int + 2));
                }
                match e_str_body(v, i + 2) {
                    Option::Some((content, j)) => {
                        let mut content = content;
                        let ghost c0 = content@;
                        content.insert(0, u);
                        proof {
                            assert(content@ =~= seq![u] + c0);
                        }
                        return Option::Some((content, j));
                    },
                    Option::None => {
                        return Option::None;
                    },
                }
            } else {
                return Option::None;
            }
        } else {
            return Option::None;
        }
    }
    proof {
        assert(v@.skip(i as int).drop_first() =~= v@.skip(i as int + 1));
    }
    match e_str_body(v, i + 1) {
        Option::Some((content, j)) => {
            let mut content = content;
            let ghost c0 = content@;
            content.insert(0, c);
            proof {
                assert(content@ =~= seq![c] + c0);
            }
            Option::Some((content, j))
        },
        Option::None => Option::None,
    }
}

/// Relies on `String`'s `FromIterator` impl over `char`: collecting
/// characters yields the string of exactly those characters.
#[verifier::external_body]
fn chars_to_string(v: &Vec<char>) -> (r: String)
    ensures
        r@ == v@,
{
    v.iter().collect()
}

fn e_scalar(v: &Vec<char>, i: usize) -> (r: Option<(Scalar, usize)>)
    requires
        i <= v.len(),
    ensures
        match r {
            Option::Some(p) => i <= p.1 <= v.len() && parse_scalar(v@.skip(i as int))
                == Option::Some((p.0@, v@.skip(p.1 as int))),
            Option::None => parse_scalar(v@.skip(i as int)) is None,
        },
{
    if i >= v.len() {
        return Option::None;
    }
    let c = v[i];
    if c == '"' {
        proof {
            assert(v@.skip(i as int).drop_first() =~= v@.skip(i as int + 1));
        }
        match e_str_body(v, i + 1) {
            Option::Some((content, j)) => {
                let s = chars_to_string(&content);
                return Option::Some((Scalar::Str(s), j));
            },
            Option::None => {
                return Option::None;
            },
        }
    }
    if c == '-' {
        proof {
            assert(v@.skip(i as int).drop_first() =~= v@.skip(i as int + 1));
        }
        match e_num(v, i + 1) {
            Option::Some((n, j)) => {
                return Option::Some((Scalar::Num(true, n), j));
            },
            Option::None => {
                return Option::None;
            },
        }
    }
    let cu = c as u32;
    if 48 <= cu && cu <= 57 {
        match e_num(v, i) {
            Option::Some((n, j)) => {
                return Option::Some((Scalar::Num(false, n), j));
            },
            Option::None => {
                return Option::None;
            },
        }
    }
    let n = v.len() - i;
    if n >= 4 && v[i] == 't' && v[i + 1] == 'r' && v[i + 2] == 'u' && v[i + 3] == 'e' {
        proof {
            assert(v@.skip(i as int).subrange(0, 4) =~= kw_true());
            assert(v@.skip(i as int).skip(4) =~= v@.skip(i as int + 4));
        }
        return Option::Some((Scalar::Bool(true), i + 4));
    }
    if n >= 5 && v[i] == 'f' && v[i + 1] == 'a' && v[i + 2] == 'l' && v[i + 3] == 's' && v[i + 4]
        == 'e' {
        proof {
            assert(v@.skip(i as int).subrange(0, 5) =~= kw_false());
            assert(v@.skip(i as int).skip(5) =~= v@.skip(i as int + 5));
        }
        return Option::Some((Scalar::Bool(false), i + 5));
    }
    if n >= 4 && v[i] == 'n' && v[i + 1] == 'u' && v[i + 2] == 'l' && v[i + 3] == 'l' {
        proof {
            assert(v@.skip(i as int).subrange(0, 4) =~= kw_null());
            assert(v@.skip(i as int).skip(4) =~= v@.skip(i as int + 4));
        }
        return Option::Some((Scalar::Null, i + 4));
    }
    proof {
        let s = v@.skip(i as int);
        assert(!has_kw(s, kw_true())) by {
            if has_kw(s, kw_true()) {
                assert(s.subrange(0, 4)[0] == s[0] && s.subrange(0, 4)[1] == s[1]
                    && s.subrange(0, 4)[2] == s[2] && s.subrange(0, 4)[3] == s[3]);
            }
        }
        assert(!has_kw(s, kw_false())) by {
            if has_kw(s, kw_false()) {
                assert(s.subrange(0, 5)[0] == s[0] && s.subrange(0, 5)[1] == s[1]
                    && s.subrange(0, 5)[2] == s[2] && s.subrange(0, 5)[3] == s[3]
                    && s.subrange(0, 5)[4] == s[4]);
            }
        }
        assert(!has_kw(s, kw_null())) by {
            if has_kw(s, kw_null()) {
                assert(s.subrange(0, 4)[0] == s[0] && s.subrange(0, 4)[1] == s[1]
                    && s.subrange(0, 4)[2] == s[2] && s.subrange(0, 4)[3] == s[3]);
            }
        }
    }
    Option::None
}

fn e_member(v: &Vec<char>, i: usize) -> (r: Option<(Member, usize)>)
    requires
        i <= v.len(),
    ensures
        match r {
            Option::Some(p) => i <= p.1 <= v.len() && parse_member(v@.skip(i as int))
                == Option::Some((p.0@, v@.skip(p.1 as int))),
            Option::None => parse_member(v@.skip(i as int)) is None,
        },
{
    let j0 = e_ws(v, i);
    if j0 < v.len() && v[j0] == '"' {
        proof {
            assert(v@.skip(j0 as int).drop_first() =~= v@.skip(j0 as int + 1));
        }
        match e_str_body(v, j0 + 1) {
            Option::Some((key, j1)) => {
                let j2 = e_ws(v, j1);
                if j2 < v.len() && v[j2] == ':' {
                    proof {
                        assert(v@.skip(j2 as int).drop_first() =~= v@.skip(j2 as int + 1));
                    }
                    let j3 = e_ws(v, j2 + 1);
                    match e_scalar(v, j3) {
                        Option::Some((sc, j4)) => Option::Some(
                            (Member { key, value: sc }, j4),
                        ),
                        Option::None => Option::None,
                    }
                } else {
                    Option::None
                }
            },
            Option::None => Option::None,
        }
    } else {
        Option::None
    }
}

fn e_members(v: &Vec<char>, i: usize) -> (r: Option<(Vec<Member>, usize)>)
    requires
        i <= v.len(),
    ensures
        match r {
            Option::Some(p) => i <= p.1 <= v.len() && parse_members(v@.skip(i as int))
                == Option::Some((mems_view(p.0@), v@.skip(p.1 as int))),
            Option::None => parse_members(v@.skip(i as int)) is None,
        },
    decreases v.len() - i,
{
    let j0 = e_ws(v, i);
    if j0 < v.len() && v[j0] == '}' {
        let out: Vec<Member> = Vec::new();
        proof {
            assert(v@.skip(j0 as int).drop_first() =~= v@.skip(j0 as int + 1));
            assert(mems_view(out@) =~= Seq::<crate::json::MemberModel>::empty());
        }
        return Option::Some((out, j0 + 1));
    }
    match e_member(v, i) {
        Option::Some((m, j1)) => {
            proof {
                lemma_parse_member_len(v@.skip(i as int));
            }
            let j2 = e_ws(v, j1);
            if j2 < v.len() && v[j2] == ',' {
                proof {
                    assert(v@.skip(j2 as int).drop_first() =~= v@.skip(j2 as int + 1));
                }
                match e_members(v, j2 + 1) {
                    Option::Some((rest, j3)) => {
                        let mut rest = rest;
                        let ghost r0 = rest@;
                        rest.insert(0, m);
                        proof {
                            assert(mems_view(rest@) =~= seq![m@] + mems_view(r0));
                        }
                        Option::Some((rest, j3))
                    },
                    Option::None => Option::None,
                }
            } else if j2 < v.len() && v[j2] == '}' {
                let mut one: Vec<Member> = Vec::new();
                let ghost mm = m@;
                one.push(m);
                proof {
                    assert(v@.skip(j2 as int).drop_first() =~= v@.skip(j2 as int + 1));
                    assert(mems_view(one@) =~= seq![mm]);
                }
                Option::Some((one, j2 + 1))
            } else {
                Option::None
            }
        },
        Option::None => Option::None,
    }
}

fn e_items(v: &Vec<char>, i: usize) -> (r: Option<(Vec<Vec<Member>>, usize)>)
    requires
        i <= v.len(),
    ensures
        match r {
            Option::Some(p) => i <= p.1 <= v.len() && parse_items(v@.skip(i as int))
                == Option::Some((objs_view(p.0@), v@.skip(p.1 as int))),
            Option::None => parse_items(v@.skip(i as int)) is None,
        },
    decreases v.len() - i,
{
    let j0 = e_ws(v, i);
    if j0 < v.len() && v[j0] == ']' {
        let out: Vec<Vec<Member>> = Vec::new();
        proof {
            assert(v@.skip(j0 as int).drop_first() =~= v@.skip(j0 as int + 1));
            assert(objs_view(out@) =~= Seq::<Seq<crate::json::MemberModel>>::empty());
        }
        return Option::Some((out, j0 + 1));
    }
    if j0 < v.len() && v[j0] == '{' {
        proof {
            assert(v@.skip(j0 as int).drop_first() =~= v@.skip(j0 as int + 1));
        }
        match e_members(v, j0 + 1) {
            Option::Some((obj, j1)) => {
                proof {
                    lemma_parse_members_len(v@.skip(j0 as int + 1));
                }
                let j2 = e_ws(v, j1);
                if j2 < v.len() && v[j2] == ',' {
                    proof {
                        assert(v@.skip(j2 as int).drop_first() =~= v@.skip(j2 as int + 1));
                    }
                    match e_items(v, j2 + 1) {
                        Option::Some((rest, j3)) => {
                            let mut rest = rest;
                            let ghost r0 = rest@;
                            let ghost om = mems_view(obj@);
                            rest.insert(0, obj);
                            proof {
                                assert(objs_view(rest@) =~= seq![om] + objs_view(r0));
                            }
                            Option::Some((rest, j3))
                        },
                        Option::None => Option::None,
                    }
                } else if j2 < v.len() && v[j2] == ']' {
                    let mut one: Vec<Vec<Member>> = Vec::new();
                    let ghost om = mems_view(obj@);
                    one.push(obj);
                    proof {
                        assert(v@.skip(j2 as int).drop_first() =~= v@.skip(j2 as int + 1));
                        assert(objs_view(one@) =~= seq![om]);
                    }
                    Option::Some((one, j2 + 1))
                } else {
                    Option::None
                }
            },
            Option::None => Option::None,
        }
    } else {
        Option::None
    }
}

fn e_doc_val(v: &Vec<char>, i: usize) -> (r: Option<(DocVal, usize)>)
    requires
        i <= v.len(),
    ensures
        match r {
            Option::Some(p) => i <= p.1 <= v.len() && parse_doc_val(v@.skip(i as int))
                == Option::Some((p.0@, v@.skip(p.1 as int))),
            Option::None => parse_doc_val(v@.skip(i as int)) is None,
        },
{
    if i < v.len() && v[i] == '[' {
        proof {
            assert(v@.skip(i as int).drop_first() =~= v@.skip(i as int + 1));
        }
        match e_items(v, i + 1) {
            Option::Some((objs, j)) => Option::Some((DocVal::Arr(objs), j)),
            Option::None => Option::None,
        }
    } else {
        match e_scalar(v, i) {
            Option::Some((sc, j)) => Option::Some((DocVal::Scalar(sc), j)),
            Option::None => Option::None,
        }
    }
}

fn e_doc_member(v: &Vec<char>, i: usize) -> (r: Option<(DocMember, usize)>)
    requires
        i <= v.len(),
    ensures
        match r {
            Option::Some(p) => i <= p.1 <= v.len() && parse_doc_member(v@.skip(i as int))
                == Option::Some((p.0@, v@.skip(p.1 as int))),
            Option::None => parse_doc_member(v@.skip(i as int)) is None,
        },
{
    let j0 = e_ws(v, i);
    if j0 < v.len() && v[j0] == '"' {
        proof {
            assert(v@.skip(j0 as int).drop_first() =~= v@.skip(j0 as int + 1));
        }
        match e_str_body(v, j0 + 1) {
            Option::Some((key, j1)) => {
                let j2 = e_ws(v, j1);
                if j2 < v.len() && v[j2] == ':' {
                    proof {
                        assert(v@.skip(j2 as int).drop_first() =~= v@.skip(j2 as int + 1));
                    }
                    let j3 = e_ws(v, j2 + 1);
                    match e_doc_val(v, j3) {
                        Option::Some((dv, j4)) => Option::Some(
                            (DocMember { key, value: dv }, j4),
                        ),
                        Option::None => Option::None,
                    }
                } else {
                    Option::None
                }
            },
            Option::None => Option::None,
        }
    } else {
        Option::None
    }
}

fn e_doc_members(v: &Vec<char>, i: usize) -> (r: Option<(Vec<DocMember>, usize)>)
    requires
        i <= v.len(),
    ensures
        match r {
            Option::Some(p) => i <= p.1 <= v.len() && parse_doc_members(v@.skip(i as int))
                == Option::Some((doc_view(p.0@), v@.skip(p.1 as int))),
            Option::None => parse_doc_members(v@.skip(i as int)) is None,
        },
    decreases v.len() - i,
{
    let j0 = e_ws(v, i);
    if j0 < v.len() && v[j0] == '}' {
        let out: Vec<DocMember> = Vec::new();
        proof {
            assert(v@.skip(j0 as int).drop_first() =~= v@.skip(j0 as int + 1));
            assert(doc_view(out@) =~= Seq::<crate::json::DocMemberModel>::empty());
        }
        return Option::Some((out, j0 + 1));
    }
    match e_doc_member(v, i) {
        Option::Some((m, j1)) => {
            proof {
                lemma_parse_doc_member_len(v@.skip(i as int));
            }
            let j2 = e_ws(v, j1);
            if j2 < v.len() && v[j2] == ',' {
                proof {
                    assert(v@.skip(j2 as int).drop_first() =~= v@.skip(j2 as int + 1));
                }
                match e_doc_members(v, j2 + 1) {
                    Option::Some((rest, j3)) => {
                        let mut rest = rest;
                        let ghost r0 = rest@;
                        rest.insert(0, m);
                        proof {
                            assert(doc_view(rest@) =~= seq![m@] + doc_view(r0));
                        }
                        Option::Some((rest, j3))
                    },
                    Option::None => Option::None,
                }
            } else if j2 < v.len() && v[j2] == '}' {
                let mut one: Vec<DocMember> = Vec::new();
                let ghost mm = m@;
                one.push(m);
                proof {
                    assert(v@.skip(j2 as int).drop_first() =~= v@.skip(j2 as int + 1));
                    assert(doc_view(one@) =~= seq![mm]);
                }
                Option::Some((one, j2 + 1))
            } else {
                Option::None
            }
        },
        Option::None => Option::None,
    }
}

/// Parses a whole document held in a character buffer.
pub fn e_document(v: &Vec<char>) -> (r: Option<Vec<DocMember>>)
    ensures
        match r {
            Option::Some(doc) => parse_document(v@) == Option::Some(doc_view(doc@)),
            Option::None => parse_document(v@) is None,
        },
{
    proof {
        assert(v@.skip(0) =~= v@);
    }
    let j0 = e_ws(v, 0);
    if j0 < v.len() && v[j0] == '{' {
        proof {
            assert(v@.skip(j0 as int).drop_first() =~= v@.skip(j0 as int + 1));
        }
        match e_doc_members(v, j0 + 1) {
            Option::Some((doc, j1)) => {
                let j2 = e_ws(v, j1);
                if j2 == v.len() {
                    proof {
                        assert(v@.skip(j2 as int) =~= Seq::<char>::empty());
                    }
                    Option::Some(doc)
                } else {
                    Option::None
                }
            },
            Option::None => Option::None,
        }
    } else {
        Option::None
    }
}

/// The characters of a string slice, one by one.
pub fn str_to_chars(s: &str) -> (v: Vec<char>)
    ensures
        v@ == s@,
{
    let n = s.unicode_len();
    let mut v: Vec<char> = Vec::new();
    let mut i: usize = 0;
    while i < n
        invariant
            i <= n,
            n == s@.len(),
            v@ == s@.subrange(0, i as int),
        decreases n - i,
    {
        v.push(s.get_char(i));
        proof {
            assert(v@ =~= s@.subrange(0, i + 1 as int));
        }
        i += 1;
    }
    proof {
        assert(v@ =~= s@);
    }
    v
}

} // verus!
