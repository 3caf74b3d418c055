//! Parser for the `routine!` grammar over a token-tree model.
//!
//! Grammar:
//!
//!   routine    := "fn" IDENT "=" INT ";" "in" "{" arg_list "}" "out" "{" arg_list "}"
//!   arg_list   := ( IDENT ":" type_tag ";" )*
//!   type_tag   := IDENT  // one of: int, port_send, port_send_poly, mach_port_t
//!
//! The first `in` argument must have tag `mach_port_t`: it names the
//! destination port (msgh_remote_port) and is not placed in the message
//! body; the remaining `in` arguments are.
use vstd::prelude::*;

use crate::decimal::{int_decimal, lemma_parse_i32_of_decimal, parse_i32, spec_parse_i32};
use crate::text::{push_char, str_eq};

verus! {

// ---- token model ----

/// Delimiter of a token group.
#[derive(Clone, Copy, PartialEq, Eq, Structural, Debug)]
pub enum Delimiter {
    Parenthesis,
    Brace,
    Bracket,
    Invisible,
}

/// A token tree: each leaf holds the text the token prints as.
#[derive(Debug)]
pub enum TokenTree {
    Ident(String),
    Punct(char),
    Literal(String),
    Group(Delimiter, Vec<TokenTree>),
}

/// Mathematical view of a token tree.
pub enum TokenView {
    Ident(Seq<char>),
    Punct(char),
    Literal(Seq<char>),
    Group(Delimiter, Seq<TokenView>),
}

pub open spec fn token_view(t: TokenTree) -> TokenView
    decreases t,
{
    match t {
        TokenTree::Ident(s) => TokenView::Ident(s@),
        TokenTree::Punct(c) => TokenView::Punct(c),
        TokenTree::Literal(s) => TokenView::Literal(s@),
        TokenTree::Group(d, v) => TokenView::Group(d, tokens_view(v@)),
    }
}

pub open spec fn tokens_view(s: Seq<TokenTree>) -> Seq<TokenView>
    decreases s,
{
    if s.len() == 0 {
        Seq::empty()
    } else {
        tokens_view(s.drop_last()).push(token_view(s.last()))
    }
}

impl View for TokenTree {
    type V = TokenView;

    open spec fn view(&self) -> TokenView {
        token_view(*self)
    }
}

pub proof fn lemma_tokens_view(s: Seq<TokenTree>)
    ensures
        tokens_view(s).len() == s.len(),
        forall|k: int| 0 <= k < s.len() ==> #[trigger] tokens_view(s)[k] == token_view(s[k]),
    decreases s.len(),
{
    if s.len() > 0 {
        lemma_tokens_view(s.drop_last());
        assert forall|k: int| 0 <= k < s.len() implies #[trigger] tokens_view(s)[k] == token_view(
            s[k],
        ) by {
            if k < s.len() - 1 {
                assert(s.drop_last()[k] == s[k]);
            }
        }
    }
}

// ---- routine model ----

/// Argument type tags of the `routine!` grammar.
#[derive(Debug, Clone, Copy, PartialEq, Eq, Structural)]
pub enum TypeTag {
    /// 32-bit signed int; wire slot = descriptor 8 + value 4 + pad 4.
    Int,
    /// Inline port name, fixed COPY_SEND disposition.
    PortSend,
    /// Inline port name, caller-supplied disposition (adds an `xxxPoly` arg).
    PortSendPoly,
    /// Marker for the request-port arg; goes in msgh_remote_port, not the body.
    MachPortT,
}

pub open spec fn tag_name(t: TypeTag) -> Seq<char> {
    match t {
        TypeTag::Int => "int"@,
        TypeTag::PortSend => "port_send"@,
        TypeTag::PortSendPoly => "port_send_poly"@,
        TypeTag::MachPortT => "mach_port_t"@,
    }
}

pub open spec fn spec_tag_from_name(name: Seq<char>) -> Option<TypeTag> {
    if name == "int"@ {
        Some(TypeTag::Int)
    } else if name == "port_send"@ {
        Some(TypeTag::PortSend)
    } else if name == "port_send_poly"@ {
        Some(TypeTag::PortSendPoly)
    } else if name == "mach_port_t"@ {
        Some(TypeTag::MachPortT)
    } else {
        None
    }
}

pub open spec fn msg_unknown_tag(name: Seq<char>) -> Seq<char> {
    "unknown type tag `"@ + name + "`"@
}

impl TypeTag {
    /// Map a tag's spelling to the tag; any other spelling is an error
    /// naming the unknown tag.
    pub fn from_ident(name: &str) -> (r: Result<TypeTag, String>)
        ensures
            match spec_tag_from_name(name@) {
                Some(t) => r == Ok::<TypeTag, String>(t),
                None => r is Err && r->Err_0@ == msg_unknown_tag(name@),
            },
    {
        if str_eq(name, "int") {
            Ok(TypeTag::Int)
        } else if str_eq(name, "port_send") {
            Ok(TypeTag::PortSend)
        } else if str_eq(name, "port_send_poly") {
            Ok(TypeTag::PortSendPoly)
        } else if str_eq(name, "mach_port_t") {
            Ok(TypeTag::MachPortT)
        } else {
            let mut m = "unknown type tag `".to_owned();
            m.append(name);
            m.append("`");
            Err(m)
        }
    }
}

/// One declared argument.
#[derive(Debug)]
pub struct Arg {
    pub name: String,
    pub tag: TypeTag,
}

pub struct ArgView {
    pub name: Seq<char>,
    pub tag: TypeTag,
}

impl View for Arg {
    type V = ArgView;

    open spec fn view(&self) -> ArgView {
        ArgView { name: self.name@, tag: self.tag }
    }
}

pub open spec fn args_view(v: Seq<Arg>) -> Seq<ArgView> {
    v.map_values(|a: Arg| a@)
}

/// A parsed `routine!` invocation.
#[derive(Debug)]
pub struct ParsedRoutine {
    pub fname: String,
    pub msgh_id: i32,
    /// Name of the destination-port arg.
    pub target: String,
    /// Body-only arguments (the target excluded).
    pub in_args: Vec<Arg>,
    pub out_args: Vec<Arg>,
}

#[verifier::ext_equal]
pub struct RoutineView {
    pub fname: Seq<char>,
    pub msgh_id: i32,
    pub target: Seq<char>,
    pub in_args: Seq<ArgView>,
    pub out_args: Seq<ArgView>,
}

impl View for ParsedRoutine {
    type V = RoutineView;

    open spec fn view(&self) -> RoutineView {
        RoutineView {
            fname: self.fname@,
            msgh_id: self.msgh_id,
            target: self.target@,
            in_args: args_view(self.in_args@),
            out_args: args_view(self.out_args@),
        }
    }
}

pub open spec fn has_target_tag(args: Seq<ArgView>) -> bool {
    exists|j: int| 0 <= j < args.len() && (#[trigger] args[j]).tag == TypeTag::MachPortT
}

/// A routine the generator accepts: no argument after the target carries
/// the `mach_port_t` tag.
pub open spec fn valid_routine(r: RoutineView) -> bool {
    !has_target_tag(r.in_args) && !has_target_tag(r.out_args)
}

// ---- error messages ----

pub const MSG_EXPECTED_IDENT: &'static str = "expected identifier";

pub const MSG_EXPECTED_INT: &'static str = "expected integer literal";

pub const MSG_EXPECTED_BLOCK: &'static str = "expected `{ ... }` block";

pub const MSG_TRAILING: &'static str = "unexpected trailing tokens after `out { ... }`";

pub const MSG_MISSING_TARGET: &'static str =
    "`in { ... }` must declare at least the target port (e.g. `target: mach_port_t;`)";

pub const MSG_FIRST_NOT_TARGET: &'static str =
    "first `in` arg must have type `mach_port_t` (the request port)";

pub const MSG_TARGET_NOT_FIRST: &'static str = "only the first `in` arg may have type `mach_port_t`";

pub const MSG_TARGET_IN_OUT: &'static str =
    "`mach_port_t` tag is for the request port and not valid in `out { ... }`; use `port_send`";

pub open spec fn msg_expected(what: Seq<char>) -> Seq<char> {
    "expected `"@ + what + "`"@
}

// ---- token accessors ----

pub open spec fn ident_at(t: Seq<TokenView>, i: int) -> Option<Seq<char>> {
    if 0 <= i < t.len() {
        match t[i] {
            TokenView::Ident(s) => Some(s),
            _ => None,
        }
    } else {
        None
    }
}

pub open spec fn punct_at(t: Seq<TokenView>, i: int) -> Option<char> {
    if 0 <= i < t.len() {
        match t[i] {
            TokenView::Punct(c) => Some(c),
            _ => None,
        }
    } else {
        None
    }
}

/// Whether the token at `i` is a literal (of any kind).
pub open spec fn literal_at(t: Seq<TokenView>, i: int) -> bool {
    0 <= i < t.len() && t[i] is Literal
}

/// The integer an integer-literal token at `i` denotes, if it is one.
pub open spec fn int_at(t: Seq<TokenView>, i: int) -> Option<i32> {
    if 0 <= i < t.len() {
        match t[i] {
            TokenView::Literal(s) => spec_parse_i32(s),
            _ => None,
        }
    } else {
        None
    }
}

pub open spec fn group_at(t: Seq<TokenView>, i: int, d: Delimiter) -> Option<Seq<TokenView>> {
    if 0 <= i < t.len() {
        match t[i] {
            TokenView::Group(gd, inner) => if gd == d {
                Some(inner)
            } else {
                None
            },
            _ => None,
        }
    } else {
        None
    }
}

// ---- grammar ----

/// `arg_list` read from position `i` to the end of `t`.
pub open spec fn spec_arg_list(t: Seq<TokenView>, i: int) -> Result<Seq<ArgView>, Seq<char>>
    decreases t.len() - i,
{
    if !(0 <= i < t.len()) {
        Ok(Seq::empty())
    } else {
        match ident_at(t, i) {
            None => Err(MSG_EXPECTED_IDENT@),
            Some(name) => if punct_at(t, i + 1) != Some(':') {
                Err(msg_expected(seq![':']))
            } else {
                match ident_at(t, i + 2) {
                    None => Err(MSG_EXPECTED_IDENT@),
                    Some(tn) => match spec_tag_from_name(tn) {
                        None => Err(msg_unknown_tag(tn)),
                        Some(tag) => if punct_at(t, i + 3) != Some(';') {
                            Err(msg_expected(seq![';']))
                        } else {
                            match spec_arg_list(t, i + 4) {
                                Ok(rest) => Ok(seq![ArgView { name, tag }] + rest),
                                Err(e) => Err(e),
                            }
                        },
                    },
                }
            },
        }
    }
}

/// The whole `routine!` grammar with its checks, in the order they apply.
pub open spec fn spec_parse(t: Seq<TokenView>) -> Result<RoutineView, Seq<char>> {
    if ident_at(t, 0) != Some("fn"@) {
        Err(msg_expected("fn"@))
    } else if ident_at(t, 1) is None {
        Err(MSG_EXPECTED_IDENT@)
    } else if punct_at(t, 2) != Some('=') {
        Err(msg_expected(seq!['=']))
    } else if int_at(t, 3) is None {
        Err(MSG_EXPECTED_INT@)
    } else if punct_at(t, 4) != Some(';') {
        Err(msg_expected(seq![';']))
    } else if ident_at(t, 5) != Some("in"@) {
        Err(msg_expected("in"@))
    } else if group_at(t, 6, Delimiter::Brace) is None {
        Err(MSG_EXPECTED_BLOCK@)
    } else {
        match spec_arg_list(group_at(t, 6, Delimiter::Brace)->0, 0) {
            Err(e) => Err(e),
            Ok(raw_in) => if ident_at(t, 7) != Some("out"@) {
                Err(msg_expected("out"@))
            } else if group_at(t, 8, Delimiter::Brace) is None {
                Err(MSG_EXPECTED_BLOCK@)
            } else {
                match spec_arg_list(group_at(t, 8, Delimiter::Brace)->0, 0) {
                    Err(e) => Err(e),
                    Ok(out_args) => if t.len() > 9 {
                        Err(MSG_TRAILING@)
                    } else if raw_in.len() == 0 {
                        Err(MSG_MISSING_TARGET@)
                    } else if raw_in[0].tag != TypeTag::MachPortT {
                        Err(MSG_FIRST_NOT_TARGET@)
                    } else if has_target_tag(raw_in.drop_first()) {
                        Err(MSG_TARGET_NOT_FIRST@)
                    } else if has_target_tag(out_args) {
                        Err(MSG_TARGET_IN_OUT@)
                    } else {
                        Ok(
                            RoutineView {
                                fname: ident_at(t, 1)->0,
                                msgh_id: int_at(t, 3)->0,
                                target: raw_in[0].name,
                                in_args: raw_in.drop_first(),
                                out_args,
                            },
                        )
                    },
                }
            },
        }
    }
}

// ---- token-stream helpers ----

fn expected_msg(what: &str) -> (m: String)
    ensures
        m@ == msg_expected(what@),
{
    let mut m = "expected `".to_owned();
    m.append(what);
    m.append("`");
    m
}

fn expect_ident(tokens: &Vec<TokenTree>, i: &mut usize, expected: &str) -> (r: Result<(), String>)
    ensures
        ident_at(tokens_view(tokens@), *old(i) as int) == Some(expected@) ==> r is Ok && *final(i)
            == *old(i) + 1,
        ident_at(tokens_view(tokens@), *old(i) as int) != Some(expected@) ==> r is Err
            && r->Err_0@ == msg_expected(expected@) && *final(i) == *old(i),
{
    proof {
        lemma_tokens_view(tokens@);
    }
    if *i < tokens.len() {
        match &tokens[*i] {
            TokenTree::Ident(id) => {
                if str_eq(id.as_str(), expected) {
                    *i = *i + 1;
                    return Ok(());
                }
            },
            _ => {},
        }
    }
    Err(expected_msg(expected))
}

fn take_ident(tokens: &Vec<TokenTree>, i: &mut usize) -> (r: Result<String, String>)
    ensures
        match ident_at(tokens_view(tokens@), *old(i) as int) {
            Some(s) => r is Ok && r->Ok_0@ == s && *final(i) == *old(i) + 1,
            None => r is Err && r->Err_0@ == MSG_EXPECTED_IDENT@ && *final(i) == *old(i),
        },
{
    proof {
        lemma_tokens_view(tokens@);
    }
    if *i < tokens.len() {
        match &tokens[*i] {
            TokenTree::Ident(id) => {
                *i = *i + 1;
                return Ok(id.clone());
            },
            _ => {},
        }
    }
    Err(MSG_EXPECTED_IDENT.to_owned())
}

fn take_int(tokens: &Vec<TokenTree>, i: &mut usize) -> (r: Result<i32, String>)
    ensures
        match int_at(tokens_view(tokens@), *old(i) as int) {
            Some(v) => r == Ok::<i32, String>(v) && *final(i) == *old(i) + 1,
            None => r is Err && r->Err_0@ == MSG_EXPECTED_INT@,
        },
        literal_at(tokens_view(tokens@), *old(i) as int) ==> *final(i) == *old(i) + 1,
        !literal_at(tokens_view(tokens@), *old(i) as int) ==> *final(i) == *old(i),
{
    proof {
        lemma_tokens_view(tokens@);
    }
    if *i < tokens.len() {
        match &tokens[*i] {
            TokenTree::Literal(lit) => {
                *i = *i + 1;
                match parse_i32(lit.as_str()) {
                    Some(v) => {
                        return Ok(v);
                    },
                    None => {},
                }
            },
            _ => {},
        }
    }
    Err(MSG_EXPECTED_INT.to_owned())
}

fn expect_punct(tokens: &Vec<TokenTree>, i: &mut usize, ch: char) -> (r: Result<(), String>)
    ensures
        punct_at(tokens_view(tokens@), *old(i) as int) == Some(ch) ==> r is Ok && *final(i) == *old(
            i,
        ) + 1,
        punct_at(tokens_view(tokens@), *old(i) as int) != Some(ch) ==> r is Err && r->Err_0@
            == msg_expected(seq![ch]) && *final(i) == *old(i),
{
    proof {
        lemma_tokens_view(tokens@);
    }
    if *i < tokens.len() {
        match &tokens[*i] {
            TokenTree::Punct(p) => {
                if *p == ch {
                    *i = *i + 1;
                    return Ok(());
                }
            },
            _ => {},
        }
    }
    let mut m = "expected `".to_owned();
    push_char(&mut m, ch);
    m.append("`");
    assert(m@ =~= msg_expected(seq![ch]));
    Err(m)
}

fn take_group<'a>(tokens: &'a Vec<TokenTree>, i: &mut usize, delim: Delimiter) -> (r: Result<
    &'a Vec<TokenTree>,
    String,
>)
    ensures
        match group_at(tokens_view(tokens@), *old(i) as int, delim) {
            Some(inner) => r is Ok && tokens_view(r->Ok_0@) == inner && *final(i) == *old(i) + 1,
            None => r is Err && r->Err_0@ == MSG_EXPECTED_BLOCK@ && *final(i) == *old(i),
        },
{
    proof {
        lemma_tokens_view(tokens@);
    }
    if *i < tokens.len() {
        match &tokens[*i] {
            TokenTree::Group(d, inner) => {
                if *d == delim {
                    *i = *i + 1;
                    return Ok(inner);
                }
            },
            _ => {},
        }
    }
    Err(MSG_EXPECTED_BLOCK.to_owned())
}

/// Read an `arg_list` (the contents of an `in { ... }` or `out { ... }` block).
pub fn parse_arg_list(body: &Vec<TokenTree>) -> (r: Result<Vec<Arg>, String>)
    ensures
        match spec_arg_list(tokens_view(body@), 0) {
            Ok(args) => r is Ok && args_view(r->Ok_0@) == args,
            Err(m) => r is Err && r->Err_0@ == m,
        },
{
    let ghost tv = tokens_view(body@);
    proof {
        lemma_tokens_view(body@);
    }
    let mut i: usize = 0;
    let mut out: Vec<Arg> = Vec::new();
    while i < body.len()
        invariant
            tv == tokens_view(body@),
            tv.len() == body@.len(),
            i <= body.len(),
            match spec_arg_list(tv, 0) {
                Ok(all) => spec_arg_list(tv, i as int) is Ok && all =~= args_view(out@)
                    + spec_arg_list(tv, i as int)->Ok_0,
                Err(e) => spec_arg_list(tv, i as int) == Err::<Seq<ArgView>, Seq<char>>(e),
            },
        decreases body.len() - i,
    {
        let ghost i0 = i as int;
        let name = take_ident(body, &mut i)?;
        expect_punct(body, &mut i, ':')?;
        let tag_name = take_ident(body, &mut i)?;
        let tag = TypeTag::from_ident(tag_name.as_str())?;
        expect_punct(body, &mut i, ';')?;
        let ghost before = args_view(out@);
        out.push(Arg { name, tag });
        proof {
            assert(args_view(out@) =~= before.push(ArgView { name: name@, tag }));
            assert(i0 + 4 == i);
            match spec_arg_list(tv, 0) {
                Ok(all) => {
                    let rest = spec_arg_list(tv, i as int)->Ok_0;
                    assert(spec_arg_list(tv, i0)->Ok_0 =~= seq![ArgView { name: name@, tag }]
                        + rest);
                    assert(all =~= args_view(out@) + rest);
                },
                Err(e) => {},
            }
        }
    }
    proof {
        assert(spec_arg_list(tv, i as int) == Ok::<Seq<ArgView>, Seq<char>>(Seq::empty()));
        match spec_arg_list(tv, 0) {
            Ok(all) => {
                assert(all =~= args_view(out@));
            },
            Err(e) => {},
        }
    }
    Ok(out)
}

fn any_target_tag(args: &Vec<Arg>) -> (r: bool)
    ensures
        r == has_target_tag(args_view(args@)),
{
    let mut k: usize = 0;
    while k < args.len()
        invariant
            k <= args.len(),
            forall|j: int| 0 <= j < k ==> (#[trigger] args@[j]).tag != TypeTag::MachPortT,
        decreases args.len() - k,
    {
        if args[k].tag == TypeTag::MachPortT {
            assert(args_view(args@)[k as int].tag == TypeTag::MachPortT);
            return true;
        }
        k = k + 1;
    }
    assert forall|j: int| 0 <= j < args_view(args@).len() implies (#[trigger] args_view(
        args@,
    )[j]).tag != TypeTag::MachPortT by {
        assert(args@[j].tag != TypeTag::MachPortT);
    }
    false
}

/// Parse a `routine!` invocation. On error, returns the message the
/// invocation should be rejected with.
pub fn parse(input: &Vec<TokenTree>) -> (r: Result<ParsedRoutine, String>)
    ensures
        match spec_parse(tokens_view(input@)) {
            Ok(p) => r is Ok && r->Ok_0@ =~= p,
            Err(m) => r is Err && r->Err_0@ == m,
        },
        r matches Ok(p) ==> valid_routine(p@),
{
    let ghost t = tokens_view(input@);
    proof {
        lemma_tokens_view(input@);
    }
    let mut i: usize = 0;

    // fn IDENT
    expect_ident(input, &mut i, "fn")?;
    let fname = take_ident(input, &mut i)?;

    // = INT ;
    expect_punct(input, &mut i, '=')?;
    let msgh_id = take_int(input, &mut i)?;
    expect_punct(input, &mut i, ';')?;

    // in { ... }
    expect_ident(input, &mut i, "in")?;
    let in_body = take_group(input, &mut i, Delimiter::Brace)?;
    let mut raw_in = parse_arg_list(in_body)?;

    // out { ... }
    expect_ident(input, &mut i, "out")?;
    let out_body = take_group(input, &mut i, Delimiter::Brace)?;
    let out_args = parse_arg_list(out_body)?;
    assert(i == 9);

    if i < input.len() {
        return Err(MSG_TRAILING.to_owned());
    }
    // First `in` arg must be the target (mach_port_t).

    if raw_in.len() == 0 {
        return Err(MSG_MISSING_TARGET.to_owned());
    }
    let ghost raw_view = args_view(raw_in@);
    assert(raw_view[0].tag == raw_in@[0].tag);
    assert(spec_arg_list(group_at(t, 6, Delimiter::Brace)->0, 0) == Ok::<Seq<ArgView>, Seq<char>>(
        raw_view,
    ));
    if raw_in[0].tag != TypeTag::MachPortT {
        return Err(MSG_FIRST_NOT_TARGET.to_owned());
    }
    let first = raw_in.remove(0);
    let target = first.name;
    let in_args = raw_in;
    assert(args_view(in_args@) =~= raw_view.drop_first());

    // No mach_port_t allowed after the first slot.
    if any_target_tag(&in_args) {
        return Err(MSG_TARGET_NOT_FIRST.to_owned());
    }
    if any_target_tag(&out_args) {
        return Err(MSG_TARGET_IN_OUT.to_owned());
    }
    Ok(ParsedRoutine { fname, msgh_id, target, in_args, out_args })
}

// ---- printing a routine back as tokens ----

pub open spec fn render_arg(a: ArgView) -> Seq<TokenView> {
    seq![
        TokenView::Ident(a.name),
        TokenView::Punct(':'),
        TokenView::Ident(tag_name(a.tag)),
        TokenView::Punct(';'),
    ]
}

pub open spec fn render_args(a: Seq<ArgView>) -> Seq<TokenView>
    decreases a.len(),
{
    if a.len() == 0 {
        Seq::empty()
    } else {
        render_arg(a[0]) + render_args(a.drop_first())
    }
}

/// The tokens of the invocation `fn NAME = ID; in { TARGET: mach_port_t; IN... } out { OUT... }`.
pub open spec fn render(r: RoutineView) -> Seq<TokenView> {
    seq![
        TokenView::Ident("fn"@),
        TokenView::Ident(r.fname),
        TokenView::Punct('='),
        TokenView::Literal(int_decimal(r.msgh_id as int)),
        TokenView::Punct(';'),
        TokenView::Ident("in"@),
        TokenView::Group(
            Delimiter::Brace,
            render_args(seq![ArgView { name: r.target, tag: TypeTag::MachPortT }] + r.in_args),
        ),
        TokenView::Ident("out"@),
        TokenView::Group(Delimiter::Brace, render_args(r.out_args)),
    ]
}

proof fn lemma_tag_name_roundtrip(t: TypeTag)
    ensures
        spec_tag_from_name(tag_name(t)) == Some(t),
{
    reveal_strlit("int");
    reveal_strlit("port_send");
    reveal_strlit("port_send_poly");
    reveal_strlit("mach_port_t");
    assert("int"@.len() == 3);
    assert("port_send"@.len() == 9);
    assert("port_send_poly"@.len() == 14);
    assert("mach_port_t"@.len() == 11);
    assert("port_send"@ != "int"@);
    assert("port_send_poly"@ != "int"@ && "port_send_poly"@ != "port_send"@);
    assert("mach_port_t"@ != "int"@ && "mach_port_t"@ != "port_send"@ && "mach_port_t"@
        != "port_send_poly"@);
}

proof fn lemma_arg_list_of_render(pre: Seq<TokenView>, a: Seq<ArgView>)
    ensures
        spec_arg_list(pre + render_args(a), pre.len() as int) == Ok::<Seq<ArgView>, Seq<char>>(a),
    decreases a.len(),
{
    let t = pre + render_args(a);
    if a.len() == 0 {
        assert(t.len() == pre.len());
        assert(a =~= Seq::<ArgView>::empty());
    } else {
        let a0 = a[0];
        lemma_tag_name_roundtrip(a0.tag);
        let pre2 = pre + render_arg(a0);
        assert(t =~= pre2 + render_args(a.drop_first()));
        lemma_arg_list_of_render(pre2, a.drop_first());
        let i = pre.len() as int;
        assert(t[i] == TokenView::Ident(a0.name));
        assert(t[i + 1] == TokenView::Punct(':'));
        assert(t[i + 2] == TokenView::Ident(tag_name(a0.tag)));
        assert(t[i + 3] == TokenView::Punct(';'));
        assert(pre2.len() == i + 4);
        assert(seq![ArgView { name: a0.name, tag: a0.tag }] + a.drop_first() =~= a);
    }
}

/// Every valid routine, written out in the `routine!` grammar, parses back
/// to exactly that routine.
pub proof fn lemma_parse_render(r: RoutineView)
    requires
        valid_routine(r),
    ensures
        spec_parse(render(r)) matches Ok(p) && p =~= r,
{
    let t = render(r);
    let raw = seq![ArgView { name: r.target, tag: TypeTag::MachPortT }] + r.in_args;
    lemma_parse_i32_of_decimal(r.msgh_id);
    lemma_arg_list_of_render(Seq::empty(), raw);
    assert(Seq::<TokenView>::empty() + render_args(raw) =~= render_args(raw));
    lemma_arg_list_of_render(Seq::empty(), r.out_args);
    assert(Seq::<TokenView>::empty() + render_args(r.out_args) =~= render_args(r.out_args));
    assert(raw.drop_first() =~= r.in_args);
    assert(int_at(t, 3) == Some(r.msgh_id));
}

/// A successful parse consumes the whole invocation: the input has exactly
/// nine top-level tokens, and whatever is appended after a valid
/// invocation, tokens of any kind, makes it rejected as trailing tokens.
pub proof fn lemma_parse_rejects_trailing(t: Seq<TokenView>, extra: Seq<TokenView>)
    ensures
        spec_parse(t) is Ok ==> t.len() == 9,
        spec_parse(t) is Ok && extra.len() > 0 ==> spec_parse(t + extra) == Err::<
            RoutineView,
            Seq<char>,
        >(MSG_TRAILING@),
{
    if spec_parse(t) is Ok && extra.len() > 0 {
        let u = t + extra;
        assert forall|i: int| 0 <= i < 9 implies #[trigger] u[i] == t[i] by {}
        assert(ident_at(u, 0) == ident_at(t, 0));
        assert(ident_at(u, 1) == ident_at(t, 1));
        assert(punct_at(u, 2) == punct_at(t, 2));
        assert(int_at(u, 3) == int_at(t, 3));
        assert(punct_at(u, 4) == punct_at(t, 4));
        assert(ident_at(u, 5) == ident_at(t, 5));
        assert(group_at(u, 6, Delimiter::Brace) == group_at(t, 6, Delimiter::Brace));
        assert(ident_at(u, 7) == ident_at(t, 7));
        assert(group_at(u, 8, Delimiter::Brace) == group_at(t, 8, Delimiter::Brace));
    }
}

} // verus!
