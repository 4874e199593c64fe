//! The JSON body of a request.

use vstd::prelude::*;
use crate::text::{
    append_decimal, append_fixed3, append_item, decimal, decimal_reads_back, decimal_value, fixed3,
    fixed3_reads_back, fixed3_value, join,
};
use crate::types::{TtsRequest, VoiceSettings};

verus! {

/// The sixteen hexadecimal digits, lower case.
pub const HEX_DIGITS: &'static str = "0123456789abcdef";

/// How a character stands inside a JSON string literal: `"` and `\` behind
/// a backslash, the usual short escapes for backspace, tab, line feed, form
/// feed and carriage return, any other control character below 0x20 as
/// `\u00` and two lower-case hex digits, and every other character as it is.
pub open spec fn escape_char(c: char) -> Seq<char> {
    if c == '"' {
        seq!['\\', '"']
    } else if c == '\\' {
        seq!['\\', '\\']
    } else if c == '\x08' {
        seq!['\\', 'b']
    } else if c == '\t' {
        seq!['\\', 't']
    } else if c == '\n' {
        seq!['\\', 'n']
    } else if c == '\x0c' {
        seq!['\\', 'f']
    } else if c == '\r' {
        seq!['\\', 'r']
    } else if (c as u32) < 0x20 {
        seq![
            '\\',
            'u',
            '0',
            '0',
            HEX_DIGITS@[((c as u32) / 16) as int],
            HEX_DIGITS@[((c as u32) % 16) as int],
        ]
    } else {
        seq![c]
    }
}

/// The characters of `s`, each escaped.
pub open spec fn escaped(s: Seq<char>) -> Seq<char>
    decreases s.len(),
{
    if s.len() == 0 {
        Seq::empty()
    } else {
        escape_char(s[0]) + escaped(s.drop_first())
    }
}

/// The JSON string literal for `s`: its escaped characters in double quotes.
pub open spec fn json_quoted(s: Seq<char>) -> Seq<char> {
    seq!['"'] + escaped(s) + seq!['"']
}

/// The number a lower-case hexadecimal digit stands for.
pub open spec fn hex_value(d: char) -> int {
    if '0' <= d && d <= '9' {
        d as u32 - 48
    } else {
        d as u32 - 87
    }
}

/// The character a short escape `\e` stands for.
pub open spec fn short_unescape(e: char) -> char {
    if e == 'b' {
        '\x08'
    } else if e == 't' {
        '\t'
    } else if e == 'n' {
        '\n'
    } else if e == 'f' {
        '\x0c'
    } else if e == 'r' {
        '\r'
    } else {
        e
    }
}

/// The control character that `\u00ab` stands for.
pub open spec fn control_char(a: char, b: char) -> char {
    choose|c: char| #[trigger] (c as u32) == hex_value(a) * 16 + hex_value(b)
}

/// Reads the contents of a JSON string literal back into characters.
pub open spec fn unescape(t: Seq<char>) -> Seq<char>
    decreases t.len(),
{
    if t.len() == 0 {
        Seq::empty()
    } else if t[0] == '\\' && t.len() >= 6 && t[1] == 'u' {
        seq![control_char(t[4], t[5])] + unescape(t.subrange(6, t.len() as int))
    } else if t[0] == '\\' && t.len() >= 2 {
        seq![short_unescape(t[1])] + unescape(t.subrange(2, t.len() as int))
    } else {
        seq![t[0]] + unescape(t.drop_first())
    }
}

/// Reads a JSON string literal back: the characters between its quotes.
pub open spec fn json_unquote(t: Seq<char>) -> Option<Seq<char>> {
    if t.len() >= 2 && t[0] == '"' && t.last() == '"' {
        Some(unescape(t.subrange(1, t.len() - 1)))
    } else {
        None
    }
}

proof fn lemma_hex_digit(k: int)
    requires
        0 <= k < 16,
    ensures
        hex_value(HEX_DIGITS@[k]) == k,
{
    reveal_strlit("0123456789abcdef");
}

proof fn lemma_unescape_one(c: char, rest: Seq<char>)
    ensures
        unescape(escape_char(c) + rest) == seq![c] + unescape(rest),
{
    let t = escape_char(c) + rest;
    let n = escape_char(c).len();
    assert(t.subrange(n as int, t.len() as int) =~= rest);
    if c == '"' || c == '\\' || c == '\x08' || c == '\t' || c == '\n' || c == '\x0c' || c == '\r' {
        assert(t[0] == '\\' && t[1] != 'u');
    } else if (c as u32) < 0x20 {
        let v = c as u32;
        lemma_hex_digit((v / 16) as int);
        lemma_hex_digit((v % 16) as int);
        assert(t[4] == HEX_DIGITS@[(v / 16) as int]);
        assert(t[5] == HEX_DIGITS@[(v % 16) as int]);
        assert(hex_value(t[4]) * 16 + hex_value(t[5]) == v);
        let d = control_char(t[4], t[5]);
        assert((c as u32) == hex_value(t[4]) * 16 + hex_value(t[5]));
        assert(d as u32 == c as u32);
    } else {
        assert(t.drop_first() =~= rest);
    }
}

proof fn lemma_unescape_escaped(s: Seq<char>)
    ensures
        unescape(escaped(s)) == s,
    decreases s.len(),
{
    if s.len() > 0 {
        lemma_unescape_one(s[0], escaped(s.drop_first()));
        lemma_unescape_escaped(s.drop_first());
        assert(seq![s[0]] + s.drop_first() =~= s);
    } else {
        assert(unescape(Seq::<char>::empty()) =~= s);
    }
}

/// A JSON string literal reads back as the string it was made from.
pub proof fn unquote_quoted(s: Seq<char>)
    ensures
        json_unquote(json_quoted(s)) == Some(s),
{
    let t = json_quoted(s);
    assert(t.subrange(1, t.len() - 1) =~= escaped(s));
    lemma_unescape_escaped(s);
}

/// Relies on serde_json::to_string: a `str` becomes a JSON string literal,
/// quoted and escaped as `json_quoted` states. Serializing a `str` into
/// memory cannot fail.
#[verifier::external_body]
fn quote(s: &str) -> (r: String)
    ensures
        r@ == json_quoted(s@),
{
    serde_json::to_string(s).unwrap_or_default()
}

/// A member of a JSON object: its key and the JSON text of its value.
pub type Member = (Seq<char>, Seq<char>);

pub open spec fn member_text(m: Member) -> Seq<char> {
    json_quoted(m.0) + ":"@ + m.1
}

pub open spec fn member_texts(ms: Seq<Member>) -> Seq<Seq<char>> {
    ms.map_values(|m: Member| member_text(m))
}

/// The JSON object made of the members `ms`, in order.
pub open spec fn object(ms: Seq<Member>) -> Seq<char> {
    "{"@ + join(member_texts(ms)) + "}"@
}

/// A member that is present only when its value is.
pub open spec fn optional(key: Seq<char>, value: Option<Seq<char>>) -> Seq<Member> {
    match value {
        Some(v) => seq![(key, v)],
        None => Seq::empty(),
    }
}

pub open spec fn bool_text(b: bool) -> Seq<char> {
    if b {
        "true"@
    } else {
        "false"@
    }
}

/// The JSON array of the strings `items`.
pub open spec fn string_list(items: Seq<String>) -> Seq<char> {
    "["@ + join(items.map_values(|s: String| json_quoted(s@))) + "]"@
}

pub open spec fn quoted_opt(v: Option<String>) -> Option<Seq<char>> {
    match v {
        Some(s) => Some(json_quoted(s@)),
        None => None,
    }
}

pub open spec fn fixed3_opt(v: Option<u32>) -> Option<Seq<char>> {
    match v {
        Some(x) => Some(fixed3(x as nat)),
        None => None,
    }
}

pub open spec fn bool_opt(v: Option<bool>) -> Option<Seq<char>> {
    match v {
        Some(b) => Some(bool_text(b)),
        None => None,
    }
}

pub open spec fn decimal_opt(v: Option<u32>) -> Option<Seq<char>> {
    match v {
        Some(x) => Some(decimal(x as nat)),
        None => None,
    }
}

pub open spec fn list_opt(v: Option<Vec<String>>) -> Option<Seq<char>> {
    match v {
        Some(items) => Some(string_list(items@)),
        None => None,
    }
}

/// The members of the `voice_settings` object: each present setting, with
/// numbers in thousandths written as decimals.
pub open spec fn settings_members(vs: VoiceSettings) -> Seq<Member> {
    Seq::empty()
        + optional("stability"@, fixed3_opt(vs.stability))
        + optional("similarity_boost"@, fixed3_opt(vs.similarity_boost))
        + optional("style"@, fixed3_opt(vs.style))
        + optional("use_speaker_boost"@, bool_opt(vs.use_speaker_boost))
        + optional("speed"@, fixed3_opt(vs.speed))
}

/// The members of a request's body. The voice and the output format are
/// not among them: they travel in the URL.
pub open spec fn request_members(r: TtsRequest) -> Seq<Member> {
    (Seq::empty().push(("text"@, json_quoted(r.text@))).push(("model_id"@, json_quoted(r.model_id@)))
        + optional("language_code"@, quoted_opt(r.language_code))
        + optional("seed"@, decimal_opt(r.seed))
        + optional("previous_text"@, quoted_opt(r.previous_text))
        + optional("next_text"@, quoted_opt(r.next_text))
        + optional("previous_request_ids"@, list_opt(r.previous_request_ids))
        + optional("next_request_ids"@, list_opt(r.next_request_ids))
        + optional("apply_text_normalization"@, quoted_opt(r.apply_text_normalization))
        + optional(
            "apply_language_text_normalization"@,
            bool_opt(r.apply_language_text_normalization),
        )).push(("voice_settings"@, object(settings_members(r.voice_settings))))
}

/// A JSON object being written member by member.
struct ObjectText {
    text: String,
    members: Ghost<Seq<Member>>,
    empty: bool,
}

impl ObjectText {
    spec fn wf(&self) -> bool {
        &&& self.text@ == "{"@ + join(member_texts(self.members@))
        &&& self.empty == (self.members@.len() == 0)
    }

    fn new() -> (r: Self)
        ensures
            r.wf(),
            r.members@ == Seq::<Member>::empty(),
    {
        let r = ObjectText { text: String::from_str("{"), members: Ghost(Seq::empty()), empty: true };
        assert(member_texts(r.members@) =~= Seq::empty());
        assert(r.text@ =~= "{"@ + join(member_texts(r.members@)));
        r
    }

    fn add(&mut self, key: &str, value: &str)
        requires
            old(self).wf(),
        ensures
            final(self).wf(),
            final(self).members@ == old(self).members@.push((key@, value@)),
    {
        let mut item = quote(key);
        item.append(":");
        item.append(value);
        let ghost m: Member = (key@, value@);
        append_item(
            &mut self.text,
            Ghost("{"@),
            Ghost(member_texts(self.members@)),
            self.empty,
            item.as_str(),
        );
        proof {
            assert(member_texts(self.members@.push(m)) =~= member_texts(self.members@).push(
                member_text(m),
            ));
            self.members = Ghost(self.members@.push(m));
        }
        self.empty = false;
    }

    fn add_opt(&mut self, key: &str, value: Option<String>)
        requires
            old(self).wf(),
        ensures
            final(self).wf(),
            final(self).members@ == old(self).members@ + optional(key@, view_opt(value)),
    {
        let ghost before = self.members@;
        match value {
            Some(v) => {
                self.add(key, v.as_str());
                assert(self.members@ =~= before + optional(key@, Some(v@)));
            },
            None => {
                assert(self.members@ =~= self.members@ + Seq::<Member>::empty());
            },
        }
    }

    fn finish(self) -> (r: String)
        requires
            self.wf(),
        ensures
            r@ == object(self.members@),
    {
        let mut t = self.text;
        t.append("}");
        t
    }
}

fn quote_opt(v: &Option<String>) -> (r: Option<String>)
    ensures
        view_opt(r) == quoted_opt(*v),
{
    match v {
        Some(s) => Some(quote(s.as_str())),
        None => None,
    }
}

fn fixed3_text(v: Option<u32>) -> (r: Option<String>)
    ensures
        view_opt(r) == fixed3_opt(v),
{
    match v {
        Some(x) => {
            let mut s = String::new();
            append_fixed3(&mut s, x);
            assert(s@ =~= fixed3(x as nat));
            Some(s)
        },
        None => None,
    }
}

fn bool_str(b: bool) -> (r: &'static str)
    ensures
        r@ == bool_text(b),
{
    if b {
        "true"
    } else {
        "false"
    }
}

fn bool_text_opt(v: Option<bool>) -> (r: Option<String>)
    ensures
        view_opt(r) == bool_opt(v),
{
    match v {
        Some(b) => Some(String::from_str(bool_str(b))),
        None => None,
    }
}

fn decimal_text_opt(v: Option<u32>) -> (r: Option<String>)
    ensures
        view_opt(r) == decimal_opt(v),
{
    match v {
        Some(x) => {
            let mut s = String::new();
            append_decimal(&mut s, x as u64);
            assert(s@ =~= decimal(x as nat));
            Some(s)
        },
        None => None,
    }
}

/// The JSON array of the strings `items`.
pub fn string_list_text(items: &Vec<String>) -> (r: String)
    ensures
        r@ == string_list(items@),
{
    let mut out = String::from_str("[");
    let mut i: usize = 0;
    while i < items.len()
        invariant
            i <= items@.len(),
            out@ == "["@ + join(items@.take(i as int).map_values(|s: String| json_quoted(s@))),
        decreases items@.len() - i,
    {
        let q = quote(items[i].as_str());
        append_item(
            &mut out,
            Ghost("["@),
            Ghost(items@.take(i as int).map_values(|s: String| json_quoted(s@))),
            i == 0,
            q.as_str(),
        );
        assert(items@.take(i as int + 1).map_values(|s: String| json_quoted(s@)) =~= items@.take(
            i as int,
        ).map_values(|s: String| json_quoted(s@)).push(json_quoted(items@[i as int]@)));
        i = i + 1;
    }
    assert(items@.take(items@.len() as int) =~= items@);
    out.append("]");
    out
}

fn list_text_opt(v: &Option<Vec<String>>) -> (r: Option<String>)
    ensures
        view_opt(r) == list_opt(*v),
{
    match v {
        Some(items) => Some(string_list_text(items)),
        None => None,
    }
}

/// The view of an optional string.
pub open spec fn view_opt(v: Option<String>) -> Option<Seq<char>> {
    match v {
        Some(s) => Some(s@),
        None => None,
    }
}

/// The JSON object of voice settings: each present setting, in thousandths
/// written as a decimal.
pub fn settings_body(vs: &VoiceSettings) -> (r: String)
    ensures
        r@ == object(settings_members(*vs)),
{
    let mut w = ObjectText::new();
    w.add_opt("stability", fixed3_text(vs.stability));
    w.add_opt("similarity_boost", fixed3_text(vs.similarity_boost));
    w.add_opt("style", fixed3_text(vs.style));
    w.add_opt("use_speaker_boost", bool_text_opt(vs.use_speaker_boost));
    w.add_opt("speed", fixed3_text(vs.speed));
    w.finish()
}

/// The JSON body of a request: its text, model, each optional field that is
/// set, and its voice settings. The voice and the output format are left
/// out, as they travel in the URL.
pub fn request_body(r: &TtsRequest) -> (b: String)
    ensures
        b@ == object(request_members(*r)),
{
    let mut w = ObjectText::new();
    w.add("text", quote(r.text.as_str()).as_str());
    w.add("model_id", quote(r.model_id.as_str()).as_str());
    w.add_opt("language_code", quote_opt(&r.language_code));
    w.add_opt("seed", decimal_text_opt(r.seed));
    w.add_opt("previous_text", quote_opt(&r.previous_text));
    w.add_opt("next_text", quote_opt(&r.next_text));
    w.add_opt("previous_request_ids", list_text_opt(&r.previous_request_ids));
    w.add_opt("next_request_ids", list_text_opt(&r.next_request_ids));
    w.add_opt("apply_text_normalization", quote_opt(&r.apply_text_normalization));
    w.add_opt("apply_language_text_normalization", bool_text_opt(r.apply_language_text_normalization));
    let settings = settings_body(&r.voice_settings);
    w.add("voice_settings", settings.as_str());
    w.finish()
}

/// The value of the last member of `ms` whose key is `key`, if any.
pub open spec fn lookup(ms: Seq<Member>, key: Seq<char>) -> Option<Seq<char>>
    decreases ms.len(),
{
    if ms.len() == 0 {
        None
    } else if ms.last().0 == key {
        Some(ms.last().1)
    } else {
        lookup(ms.drop_last(), key)
    }
}

broadcast proof fn lemma_lookup_push(ms: Seq<Member>, m: Member, key: Seq<char>)
    ensures
        #[trigger] lookup(ms.push(m), key) == if m.0 == key {
            Some(m.1)
        } else {
            lookup(ms, key)
        },
{
    assert(ms.push(m).drop_last() =~= ms);
}

broadcast proof fn lemma_lookup_append_optional(ms: Seq<Member>, k: Seq<char>, v: Option<Seq<char>>, key: Seq<char>)
    ensures
        #[trigger] lookup(ms + optional(k, v), key) == if k == key && v is Some {
            v
        } else {
            lookup(ms, key)
        },
{
    match v {
        Some(x) => {
            assert(ms + optional(k, v) =~= ms.push((k, x)));
            lemma_lookup_push(ms, (k, x), key);
        },
        None => {
            assert(ms + optional(k, v) =~= ms);
        },
    }
}

/// No member of a request's body has the key `voice_id`, whatever the
/// request: the voice travels in the URL path only.
pub proof fn body_has_no_voice_id(r: TtsRequest)
    ensures
        forall|i: int|
            0 <= i < request_members(r).len() ==> #[trigger] request_members(r)[i].0 != "voice_id"@,
{
    reveal_strlit("voice_id");
    reveal_strlit("text");
    reveal_strlit("model_id");
    reveal_strlit("language_code");
    reveal_strlit("seed");
    reveal_strlit("previous_text");
    reveal_strlit("next_text");
    reveal_strlit("previous_request_ids");
    reveal_strlit("next_request_ids");
    reveal_strlit("apply_text_normalization");
    reveal_strlit("apply_language_text_normalization");
    reveal_strlit("voice_settings");
    assert forall|i: int| 0 <= i < request_members(r).len() implies #[trigger] request_members(
        r,
    )[i].0 != "voice_id"@ by {
        assert(request_members(r)[i].0.len() != 8 || request_members(r)[i].0[0] != 'v'
            || request_members(r)[i].0[1] != 'o');
    }
}

/// Reading a request's body back by key gives every field it was made from:
/// the text and the model, each optional field exactly when it was set, and
/// the voice settings, whose own members give back each present setting.
pub proof fn body_keeps_every_field(r: TtsRequest)
    ensures
        lookup(request_members(r), "text"@) == Some(json_quoted(r.text@)),
        lookup(request_members(r), "model_id"@) == Some(json_quoted(r.model_id@)),
        lookup(request_members(r), "language_code"@) == quoted_opt(r.language_code),
        lookup(request_members(r), "seed"@) == decimal_opt(r.seed),
        lookup(request_members(r), "previous_text"@) == quoted_opt(r.previous_text),
        lookup(request_members(r), "next_text"@) == quoted_opt(r.next_text),
        lookup(request_members(r), "previous_request_ids"@) == list_opt(r.previous_request_ids),
        lookup(request_members(r), "next_request_ids"@) == list_opt(r.next_request_ids),
        lookup(request_members(r), "apply_text_normalization"@) == quoted_opt(
            r.apply_text_normalization,
        ),
        lookup(request_members(r), "apply_language_text_normalization"@) == bool_opt(
            r.apply_language_text_normalization,
        ),
        lookup(request_members(r), "voice_settings"@) == Some(
            object(settings_members(r.voice_settings)),
        ),
        lookup(settings_members(r.voice_settings), "stability"@) == fixed3_opt(
            r.voice_settings.stability,
        ),
        lookup(settings_members(r.voice_settings), "similarity_boost"@) == fixed3_opt(
            r.voice_settings.similarity_boost,
        ),
        lookup(settings_members(r.voice_settings), "style"@) == fixed3_opt(r.voice_settings.style),
        lookup(settings_members(r.voice_settings), "use_speaker_boost"@) == bool_opt(
            r.voice_settings.use_speaker_boost,
        ),
        lookup(settings_members(r.voice_settings), "speed"@) == fixed3_opt(r.voice_settings.speed),
{
    broadcast use lemma_lookup_push, lemma_lookup_append_optional;

    reveal_strlit("text");
    reveal_strlit("model_id");
    reveal_strlit("language_code");
    reveal_strlit("seed");
    reveal_strlit("previous_text");
    reveal_strlit("next_text");
    reveal_strlit("previous_request_ids");
    reveal_strlit("next_request_ids");
    reveal_strlit("apply_text_normalization");
    reveal_strlit("apply_language_text_normalization");
    reveal_strlit("voice_settings");
    reveal_strlit("stability");
    reveal_strlit("similarity_boost");
    reveal_strlit("style");
    reveal_strlit("use_speaker_boost");
    reveal_strlit("speed");
    assert("model_id"@.len() == 8 && "text"@.len() == 4 && "seed"@.len() == 4);
    assert("text"@[0] == 't' && "seed"@[0] == 's');
    assert("language_code"@.len() == 13 && "previous_text"@.len() == 13);
    assert("language_code"@[0] == 'l' && "previous_text"@[0] == 'p');
    assert("next_text"@.len() == 9 && "previous_request_ids"@.len() == 20);
    assert("next_request_ids"@.len() == 16 && "apply_text_normalization"@.len() == 24);
    assert("apply_language_text_normalization"@.len() == 33 && "voice_settings"@.len() == 14);
    assert("stability"@.len() == 9 && "similarity_boost"@.len() == 16);
    assert("use_speaker_boost"@.len() == 17 && "style"@.len() == 5 && "speed"@.len() == 5);
    assert("style"@[1] == 't' && "speed"@[1] == 'p');
}

/// The member `key` of `ms` reads back as the optional string `v`.
pub open spec fn reads_back_text(ms: Seq<Member>, key: Seq<char>, v: Option<String>) -> bool {
    match v {
        Some(x) => lookup(ms, key) matches Some(t) && json_unquote(t) == Some(x@),
        None => lookup(ms, key) is None,
    }
}

/// The member `key` of `ms` reads back as the optional integer `v`.
pub open spec fn reads_back_decimal(ms: Seq<Member>, key: Seq<char>, v: Option<u32>) -> bool {
    match v {
        Some(x) => lookup(ms, key) matches Some(t) && decimal_value(t) == x,
        None => lookup(ms, key) is None,
    }
}

/// The member `key` of `ms` reads back as the optional number in
/// thousandths `v`.
pub open spec fn reads_back_fixed3(ms: Seq<Member>, key: Seq<char>, v: Option<u32>) -> bool {
    match v {
        Some(x) => lookup(ms, key) matches Some(t) && fixed3_value(t) == x,
        None => lookup(ms, key) is None,
    }
}

/// The member `key` of `ms` reads back as the optional flag `v`.
pub open spec fn reads_back_flag(ms: Seq<Member>, key: Seq<char>, v: Option<bool>) -> bool {
    match v {
        Some(b) => lookup(ms, key) matches Some(t) && (t == "true"@ || t == "false"@) && (t
            == "true"@) == b,
        None => lookup(ms, key) is None,
    }
}

/// Encoding a request into its body and reading each member back by key
/// gives every field's value: strings through their JSON literals, numbers
/// through their decimals, flags through `true` and `false`, and each list
/// of request identifiers as the JSON array of its items. An optional field
/// that was not set has no member.
pub proof fn body_reads_back(r: TtsRequest)
    ensures
        reads_back_text(request_members(r), "text"@, Some(r.text)),
        reads_back_text(request_members(r), "model_id"@, Some(r.model_id)),
        reads_back_text(request_members(r), "language_code"@, r.language_code),
        reads_back_decimal(request_members(r), "seed"@, r.seed),
        reads_back_text(request_members(r), "previous_text"@, r.previous_text),
        reads_back_text(request_members(r), "next_text"@, r.next_text),
        lookup(request_members(r), "previous_request_ids"@) == list_opt(r.previous_request_ids),
        lookup(request_members(r), "next_request_ids"@) == list_opt(r.next_request_ids),
        reads_back_text(request_members(r), "apply_text_normalization"@, r.apply_text_normalization),
        reads_back_flag(
            request_members(r),
            "apply_language_text_normalization"@,
            r.apply_language_text_normalization,
        ),
        reads_back_fixed3(settings_members(r.voice_settings), "stability"@, r.voice_settings.stability),
        reads_back_fixed3(
            settings_members(r.voice_settings),
            "similarity_boost"@,
            r.voice_settings.similarity_boost,
        ),
        reads_back_fixed3(settings_members(r.voice_settings), "style"@, r.voice_settings.style),
        reads_back_flag(
            settings_members(r.voice_settings),
            "use_speaker_boost"@,
            r.voice_settings.use_speaker_boost,
        ),
        reads_back_fixed3(settings_members(r.voice_settings), "speed"@, r.voice_settings.speed),
{
    body_keeps_every_field(r);
    reveal_strlit("true");
    reveal_strlit("false");
    assert("true"@ != "false"@) by {
        assert("true"@.len() != "false"@.len());
    }
    unquote_quoted(r.text@);
    unquote_quoted(r.model_id@);
    if let Some(x) = r.language_code {
        unquote_quoted(x@);
    }
    if let Some(x) = r.previous_text {
        unquote_quoted(x@);
    }
    if let Some(x) = r.next_text {
        unquote_quoted(x@);
    }
    if let Some(x) = r.apply_text_normalization {
        unquote_quoted(x@);
    }
    if let Some(n) = r.seed {
        decimal_reads_back(n as nat);
    }
    let vs = r.voice_settings;
    if let Some(n) = vs.stability {
        fixed3_reads_back(n as nat);
    }
    if let Some(n) = vs.similarity_boost {
        fixed3_reads_back(n as nat);
    }
    if let Some(n) = vs.style {
        fixed3_reads_back(n as nat);
    }
    if let Some(n) = vs.speed {
        fixed3_reads_back(n as nat);
    }
}

} // verus!
