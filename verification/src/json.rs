//! The export document's grammar: a JSON object holding the four tables as
//! arrays of flat objects, plus scalar bookkeeping members.
//!
//! The spec functions define what a document means; the executable parser
//! is proved to compute exactly that meaning. Objects carry their members
//! as parsed; which member feeds which record field is the assembly layer's
//! business (`decode`), not the grammar's.

use vstd::prelude::*;

verus! {

/// A scalar member value: a string, an integer with its sign, a boolean,
/// or null.
pub enum Scalar {
    Str(String),
    Num(bool, u64),
    Bool(bool),
    Null,
}

/// The ghost image of a scalar.
pub ghost enum ScalarModel {
    Str(Seq<char>),
    Num(bool, u64),
    Bool(bool),
    Null,
}

impl View for Scalar {
    type V = ScalarModel;

    open spec fn view(&self) -> ScalarModel {
        match self {
            Scalar::Str(s) => ScalarModel::Str(s@),
            Scalar::Num(neg, m) => ScalarModel::Num(*neg, *m),
            Scalar::Bool(b) => ScalarModel::Bool(*b),
            Scalar::Null => ScalarModel::Null,
        }
    }
}

/// One `"key": value` member of a flat object.
pub struct Member {
    pub key: Vec<char>,
    pub value: Scalar,
}

pub ghost struct MemberModel {
    pub key: Seq<char>,
    pub value: ScalarModel,
}

impl View for Member {
    type V = MemberModel;

    open spec fn view(&self) -> MemberModel {
        MemberModel { key: self.key@, value: self.value@ }
    }
}

pub open spec fn is_ws(c: char) -> bool {
    c == ' ' || c == '\n' || c == '\t' || c == '\r'
}

pub open spec fn is_digit(c: char) -> bool {
    48 <= (c as u32) <= 57
}

pub open spec fn digit_val(c: char) -> u64 {
    ((c as u32) - 48) as u64
}

/// The suffix left after leading whitespace.
pub open spec fn skip_ws(s: Seq<char>) -> Seq<char>
    decreases s.len(),
{
    if s.len() > 0 && is_ws(s[0]) {
        skip_ws(s.drop_first())
    } else {
        s
    }
}

pub proof fn lemma_skip_ws_len(s: Seq<char>)
    ensures
        skip_ws(s).len() <= s.len(),
    decreases s.len(),
{
    if s.len() > 0 && is_ws(s[0]) {
        lemma_skip_ws_len(s.drop_first());
    }
}

/// A digit run folded into a value; too large a run is rejected.
pub open spec fn parse_num_rec(s: Seq<char>, acc: u64) -> Option<(u64, Seq<char>)>
    decreases s.len(),
{
    if s.len() > 0 && is_digit(s[0]) {
        if acc <= (18446744073709551615 - digit_val(s[0])) / 10 {
            parse_num_rec(s.drop_first(), ((acc * 10 + digit_val(s[0])) as u64))
        } else {
            Option::None
        }
    } else {
        Option::Some((acc, s))
    }
}

/// An unsigned decimal number: at least one digit, value below 2^64.
pub open spec fn parse_num(s: Seq<char>) -> Option<(u64, Seq<char>)> {
    if s.len() > 0 && is_digit(s[0]) {
        parse_num_rec(s, 0)
    } else {
        Option::None
    }
}

pub proof fn lemma_parse_num_rec_len(s: Seq<char>, acc: u64)
    ensures
        parse_num_rec(s, acc) matches Option::Some(r) ==> r.1.len() <= s.len(),
    decreases s.len(),
{
    if s.len() > 0 && is_digit(s[0]) {
        if acc <= (18446744073709551615 - digit_val(s[0])) / 10 {
            lemma_parse_num_rec_len(s.drop_first(), ((acc * 10 + digit_val(s[0])) as u64));
        }
    }
}

/// What a two-character escape stands for.
pub open spec fn unescape(c: char) -> char {
    if c == 'n' {
        '\n'
    } else if c == 't' {
        '\t'
    } else if c == 'r' {
        '\r'
    } else {
        c
    }
}

pub open spec fn is_escape_code(c: char) -> bool {
    c == '"' || c == '\\' || c == '/' || c == 'n' || c == 't' || c == 'r'
}

/// String content after the opening quote, up to and over the closing
/// quote. Backslash escapes the quote, the backslash itself, the slash,
/// and the three common control characters.
pub open spec fn parse_str_body(s: Seq<char>) -> Option<(Seq<char>, Seq<char>)>
    decreases s.len(),
{
    if s.len() == 0 {
        Option::None
    } else if s[0] == '"' {
        Option::Some((Seq::empty(), s.drop_first()))
    } else if s[0] == '\\' {
        if s.len() >= 2 && is_escape_code(s[1]) {
            match parse_str_body(s.skip(2)) {
                Option::Some(r) => Option::Some((seq![unescape(s[1])] + r.0, r.1)),
                Option::None => Option::None,
            }
        } else {
            Option::None
        }
    } else {
        match parse_str_body(s.drop_first()) {
            Option::Some(r) => Option::Some((seq![s[0]] + r.0, r.1)),
            Option::None => Option::None,
        }
    }
}

pub proof fn lemma_parse_str_body_len(s: Seq<char>)
    ensures
        parse_str_body(s) matches Option::Some(r) ==> r.1.len() < s.len(),
    decreases s.len(),
{
    if s.len() == 0 {
    } else if s[0] == '"' {
    } else if s[0] == '\\' {
        if s.len() >= 2 && is_escape_code(s[1]) {
            lemma_parse_str_body_len(s.skip(2));
        }
    } else {
        lemma_parse_str_body_len(s.drop_first());
    }
}

/// `s` begins with the four characters of `true`, and so on.
pub open spec fn has_kw(s: Seq<char>, kw: Seq<char>) -> bool {
    kw.len() <= s.len() && s.subrange(0, kw.len() as int) == kw
}

pub open spec fn kw_true() -> Seq<char> {
    seq!['t', 'r', 'u', 'e']
}

pub open spec fn kw_false() -> Seq<char> {
    seq!['f', 'a', 'l', 's', 'e']
}

pub open spec fn kw_null() -> Seq<char> {
    seq!['n', 'u', 'l', 'l']
}

/// A scalar value: string, signed or unsigned integer, boolean or null.
pub open spec fn parse_scalar(s: Seq<char>) -> Option<(ScalarModel, Seq<char>)> {
    if s.len() == 0 {
        Option::None
    } else if s[0] == '"' {
        match parse_str_body(s.drop_first()) {
            Option::Some(r) => Option::Some((ScalarModel::Str(r.0), r.1)),
            Option::None => Option::None,
        }
    } else if s[0] == '-' {
        match parse_num(s.drop_first()) {
            Option::Some(r) => Option::Some((ScalarModel::Num(true, r.0), r.1)),
            Option::None => Option::None,
        }
    } else if is_digit(s[0]) {
        match parse_num(s) {
            Option::Some(r) => Option::Some((ScalarModel::Num(false, r.0), r.1)),
            Option::None => Option::None,
        }
    } else if has_kw(s, kw_true()) {
        Option::Some((ScalarModel::Bool(true), s.skip(4)))
    } else if has_kw(s, kw_false()) {
        Option::Some((ScalarModel::Bool(false), s.skip(5)))
    } else if has_kw(s, kw_null()) {
        Option::Some((ScalarModel::Null, s.skip(4)))
    } else {
        Option::None
    }
}

pub proof fn lemma_parse_scalar_len(s: Seq<char>)
    ensures
        parse_scalar(s) matches Option::Some(r) ==> r.1.len() < s.len(),
{
    if s.len() == 0 {
    } else if s[0] == '"' {
        lemma_parse_str_body_len(s.drop_first());
    } else if s[0] == '-' {
        if s.len() >= 2 && is_digit(s.drop_first()[0]) {
            lemma_parse_num_rec_len(s.drop_first(), 0);
        }
    } else if is_digit(s[0]) {
        lemma_parse_num_rec_len(s, 0);
        assert(parse_num_rec(s, 0) matches Option::Some(r) ==> r.1.len() < s.len()) by {
            if parse_num_rec(s, 0) is Some {
                let r = parse_num_rec(s, 0)->Some_0;
                lemma_parse_num_rec_len(s.drop_first(), digit_val(s[0]));
            }
        }
    } else {
    }
}

/// One `"key": value` member, whitespace allowed around the tokens.
pub open spec fn parse_member(s: Seq<char>) -> Option<(MemberModel, Seq<char>)> {
    let s0 = skip_ws(s);
    if s0.len() > 0 && s0[0] == '"' {
        match parse_str_body(s0.drop_first()) {
            Option::Some(kr) => {
                let s1 = skip_ws(kr.1);
                if s1.len() > 0 && s1[0] == ':' {
                    match parse_scalar(skip_ws(s1.drop_first())) {
                        Option::Some(vr) => Option::Some(
                            (MemberModel { key: kr.0, value: vr.0 }, vr.1),
                        ),
                        Option::None => Option::None,
                    }
                } else {
                    Option::None
                }
            },
            Option::None => Option::None,
        }
    } else {
        Option::None
    }
}

pub proof fn lemma_parse_member_len(s: Seq<char>)
    ensures
        parse_member(s) matches Option::Some(r) ==> r.1.len() < s.len(),
{
    let s0 = skip_ws(s);
    lemma_skip_ws_len(s);
    if s0.len() > 0 && s0[0] == '"' {
        lemma_parse_str_body_len(s0.drop_first());
        match parse_str_body(s0.drop_first()) {
            Option::Some(kr) => {
                let s1 = skip_ws(kr.1);
                lemma_skip_ws_len(kr.1);
                if s1.len() > 0 && s1[0] == ':' {
                    lemma_skip_ws_len(s1.drop_first());
                    lemma_parse_scalar_len(skip_ws(s1.drop_first()));
                }
            },
            Option::None => {},
        }
    }
}

/// The members of a flat object after its `{`, up to and over the `}`.
pub open spec fn parse_members(s: Seq<char>) -> Option<(Seq<MemberModel>, Seq<char>)>
    decreases s.len(),
    via parse_members_dec
{
    let s0 = skip_ws(s);
    if s0.len() > 0 && s0[0] == '}' {
        Option::Some((Seq::empty(), s0.drop_first()))
    } else {
        match parse_member(s) {
            Option::Some(mr) => {
                let s1 = skip_ws(mr.1);
                if s1.len() > 0 && s1[0] == ',' {
                    match parse_members(s1.drop_first()) {
                        Option::Some(rest) => Option::Some((seq![mr.0] + rest.0, rest.1)),
                        Option::None => Option::None,
                    }
                } else if s1.len() > 0 && s1[0] == '}' {
                    Option::Some((seq![mr.0], s1.drop_first()))
                } else {
                    Option::None
                }
            },
            Option::None => Option::None,
        }
    }
}

#[via_fn]
proof fn parse_members_dec(s: Seq<char>) {
    lemma_skip_ws_len(s);
    lemma_parse_member_len(s);
    match parse_member(s) {
        Option::Some(mr) => {
            lemma_skip_ws_len(mr.1);
        },
        Option::None => {},
    }
}

pub proof fn lemma_parse_members_len(s: Seq<char>)
    ensures
        parse_members(s) matches Option::Some(r) ==> r.1.len() < s.len(),
    decreases s.len(),
{
    let s0 = skip_ws(s);
    lemma_skip_ws_len(s);
    lemma_parse_member_len(s);
    if s0.len() > 0 && s0[0] == '}' {
    } else {
        match parse_member(s) {
            Option::Some(mr) => {
                let s1 = skip_ws(mr.1);
                lemma_skip_ws_len(mr.1);
                if s1.len() > 0 && s1[0] == ',' {
                    lemma_parse_members_len(s1.drop_first());
                }
            },
            Option::None => {},
        }
    }
}

/// The objects of an array after its `[`, up to and over the `]`. Every
/// item must itself be a flat object.
pub open spec fn parse_items(s: Seq<char>) -> Option<(Seq<Seq<MemberModel>>, Seq<char>)>
    decreases s.len(),
    via parse_items_dec
{
    let s0 = skip_ws(s);
    if s0.len() > 0 && s0[0] == ']' {
        Option::Some((Seq::empty(), s0.drop_first()))
    } else if s0.len() > 0 && s0[0] == '{' {
        match parse_members(s0.drop_first()) {
            Option::Some(or) => {
                let s1 = skip_ws(or.1);
                if s1.len() > 0 && s1[0] == ',' {
                    match parse_items(s1.drop_first()) {
                        Option::Some(rest) => Option::Some((seq![or.0] + rest.0, rest.1)),
                        Option::None => Option::None,
                    }
                } else if s1.len() > 0 && s1[0] == ']' {
                    Option::Some((seq![or.0], s1.drop_first()))
                } else {
                    Option::None
                }
            },
            Option::None => Option::None,
        }
    } else {
        Option::None
    }
}

#[via_fn]
proof fn parse_items_dec(s: Seq<char>) {
    let s0 = skip_ws(s);
    lemma_skip_ws_len(s);
    if s0.len() > 0 && s0[0] == '{' {
        lemma_parse_members_len(s0.drop_first());
        match parse_members(s0.drop_first()) {
            Option::Some(or) => {
                lemma_skip_ws_len(or.1);
            },
            Option::None => {},
        }
    }
}

pub proof fn lemma_parse_items_len(s: Seq<char>)
    ensures
        parse_items(s) matches Option::Some(r) ==> r.1.len() < s.len(),
    decreases s.len(),
{
    let s0 = skip_ws(s);
    lemma_skip_ws_len(s);
    if s0.len() > 0 && s0[0] == ']' {
    } else if s0.len() > 0 && s0[0] == '{' {
        lemma_parse_members_len(s0.drop_first());
        match parse_members(s0.drop_first()) {
            Option::Some(or) => {
                let s1 = skip_ws(or.1);
                lemma_skip_ws_len(or.1);
                if s1.len() > 0 && s1[0] == ',' {
                    lemma_parse_items_len(s1.drop_first());
                }
            },
            Option::None => {},
        }
    }
}

/// A top-level member's value: an array of flat objects, or a scalar.
pub enum DocVal {
    Arr(Vec<Vec<Member>>),
    Scalar(Scalar),
}

pub ghost enum DocValModel {
    Arr(Seq<Seq<MemberModel>>),
    Scalar(ScalarModel),
}

/// The members of a sequence of parsed members.
pub open spec fn mems_view(s: Seq<Member>) -> Seq<MemberModel> {
    s.map_values(|m: Member| m@)
}

/// The models of a sequence of parsed objects.
pub open spec fn objs_view(s: Seq<Vec<Member>>) -> Seq<Seq<MemberModel>> {
    s.map_values(|o: Vec<Member>| mems_view(o@))
}

impl View for DocVal {
    type V = DocValModel;

    open spec fn view(&self) -> DocValModel {
        match self {
            DocVal::Arr(objs) => DocValModel::Arr(objs_view(objs@)),
            DocVal::Scalar(sc) => DocValModel::Scalar(sc@),
        }
    }
}

/// One top-level member of the document.
pub struct DocMember {
    pub key: Vec<char>,
    pub value: DocVal,
}

pub ghost struct DocMemberModel {
    pub key: Seq<char>,
    pub value: DocValModel,
}

impl View for DocMember {
    type V = DocMemberModel;

    open spec fn view(&self) -> DocMemberModel {
        DocMemberModel { key: self.key@, value: self.value@ }
    }
}

pub open spec fn doc_view(s: Seq<DocMember>) -> Seq<DocMemberModel> {
    s.map_values(|m: DocMember| m@)
}

/// A top-level value: an array of objects, or a scalar.
pub open spec fn parse_doc_val(s: Seq<char>) -> Option<(DocValModel, Seq<char>)> {
    if s.len() > 0 && s[0] == '[' {
        match parse_items(s.drop_first()) {
            Option::Some(r) => Option::Some((DocValModel::Arr(r.0), r.1)),
            Option::None => Option::None,
        }
    } else {
        match parse_scalar(s) {
            Option::Some(r) => Option::Some((DocValModel::Scalar(r.0), r.1)),
            Option::None => Option::None,
        }
    }
}

pub proof fn lemma_parse_doc_val_len(s: Seq<char>)
    ensures
        parse_doc_val(s) matches Option::Some(r) ==> r.1.len() < s.len(),
{
    if s.len() > 0 && s[0] == '[' {
        lemma_parse_items_len(s.drop_first());
    } else {
        lemma_parse_scalar_len(s);
    }
}

/// One top-level `"key": value` member.
pub open spec fn parse_doc_member(s: Seq<char>) -> Option<(DocMemberModel, Seq<char>)> {
    let s0 = skip_ws(s);
    if s0.len() > 0 && s0[0] == '"' {
        match parse_str_body(s0.drop_first()) {
            Option::Some(kr) => {
                let s1 = skip_ws(kr.1);
                if s1.len() > 0 && s1[0] == ':' {
                    match parse_doc_val(skip_ws(s1.drop_first())) {
                        Option::Some(vr) => Option::Some(
                            (DocMemberModel { key: kr.0, value: vr.0 }, vr.1),
                        ),
                        Option::None => Option::None,
                    }
                } else {
                    Option::None
                }
            },
            Option::None => Option::None,
        }
    } else {
        Option::None
    }
}

pub proof fn lemma_parse_doc_member_len(s: Seq<char>)
    ensures
        parse_doc_member(s) matches Option::Some(r) ==> r.1.len() < s.len(),
{
    let s0 = skip_ws(s);
    lemma_skip_ws_len(s);
    if s0.len() > 0 && s0[0] == '"' {
        lemma_parse_str_body_len(s0.drop_first());
        match parse_str_body(s0.drop_first()) {
            Option::Some(kr) => {
                let s1 = skip_ws(kr.1);
                lemma_skip_ws_len(kr.1);
                if s1.len() > 0 && s1[0] == ':' {
                    lemma_skip_ws_len(s1.drop_first());
                    lemma_parse_doc_val_len(skip_ws(s1.drop_first()));
                }
            },
            Option::None => {},
        }
    }
}

/// The top-level members after the document's `{`, up to and over the `}`.
pub open spec fn parse_doc_members(s: Seq<char>) -> Option<(Seq<DocMemberModel>, Seq<char>)>
    decreases s.len(),
    via parse_doc_members_dec
{
    let s0 = skip_ws(s);
    if s0.len() > 0 && s0[0] == '}' {
        Option::Some((Seq::empty(), s0.drop_first()))
    } else {
        match parse_doc_member(s) {
            Option::Some(mr) => {
                let s1 = skip_ws(mr.1);
                if s1.len() > 0 && s1[0] == ',' {
                    match parse_doc_members(s1.drop_first()) {
                        Option::Some(rest) => Option::Some((seq![mr.0] + rest.0, rest.1)),
                        Option::None => Option::None,
                    }
                } else if s1.len() > 0 && s1[0] == '}' {
                    Option::Some((seq![mr.0], s1.drop_first()))
                } else {
                    Option::None
                }
            },
            Option::None => Option::None,
        }
    }
}

#[via_fn]
proof fn parse_doc_members_dec(s: Seq<char>) {
    lemma_skip_ws_len(s);
    lemma_parse_doc_member_len(s);
    match parse_doc_member(s) {
        Option::Some(mr) => {
            lemma_skip_ws_len(mr.1);
        },
        Option::None => {},
    }
}

/// The whole document: one object covering the entire input, up to
/// trailing whitespace.
pub open spec fn parse_document(s: Seq<char>) -> Option<Seq<DocMemberModel>> {
    let s0 = skip_ws(s);
    if s0.len() > 0 && s0[0] == '{' {
        match parse_doc_members(s0.drop_first()) {
            Option::Some(r) => {
                if skip_ws(r.1).len() == 0 {
                    Option::Some(r.0)
                } else {
                    Option::None
                }
            },
            Option::None => Option::None,
        }
    } else {
        Option::None
    }
}

} // verus!
