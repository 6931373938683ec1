//! Reading one operation out of a model's answer, in any of the forms
//! that models have been seen to use: a `do(...)` call, a `finish(...)`
//! call, a JSON object, or a mere word of completion.

use vstd::prelude::*;
use crate::agent::actions::parse::{
    first_capture, found, group, matches_of, normalize_action_type, normalized,
};
use crate::agent::engine::traits::{ModelError, ParamValue, ParamView, Params, ParsedAction};
use crate::outside::{json_members, json_members_of, json_value, json_value_of, regex_captures};
use crate::text::{
    chars_of, contains, find_char_from, find_from, first_char_index, first_index, has,
    lemma_first_index, lowercase, parse_u32, same_text, slice_chars, string_of, to_lowercase,
    trim_bounds, trimmed, unsigned_of,
};

verus! {

/// The pattern of a `do(...)` call without a bracket inside.
pub const DO_CALL_PATTERN: &'static str = r#"do\s*\(([^)]+)\)"#;

/// The pattern of a pair whose value stands in double or single quotes.
pub const LOOSE_QUOTED_PATTERN: &'static str = r#"(\w+)\s*=\s*["']([^"']+)["']"#;

/// The pattern of a JSON object without an object inside.
pub const JSON_BLOCK_PATTERN: &'static str = r"\{[^{}]*\}";

/// The pattern of a point in round brackets.
pub const COORDINATES_PATTERN: &'static str = r"\((\d+)[\s,]+(\d+)\)";

/// The pattern of a number of seconds.
pub const SECONDS_PATTERN: &'static str = r"(\d+)\s*(s|sec|second|秒)";

/// The pattern of a number of milliseconds.
pub const MILLIS_PATTERN: &'static str = r"(\d+)\s*(ms|millis|millisecond|毫秒)";

/// The pattern of a text in double quotes.
pub const QUOTED_TEXT_PATTERN: &'static str = r#""([^"]+)""#;

/// The mathematical value of a [`ParsedAction`].
pub struct ParsedView {
    pub action_type: Seq<char>,
    pub parameters: Map<Seq<char>, ParamView>,
    pub reasoning: Seq<char>,
}

impl View for ParsedAction {
    type V = ParsedView;

    open spec fn view(&self) -> ParsedView {
        ParsedView {
            action_type: self.action_type@,
            parameters: self.parameters@,
            reasoning: self.reasoning@,
        }
    }
}

/// The value of an optional parsed operation.
pub open spec fn opt_parsed(p: Option<ParsedAction>) -> Option<ParsedView> {
    match p {
        Some(x) => Some(x@),
        None => None,
    }
}

/// The key and the value of a pair `key=value`: what stands before and
/// after its first `=`, each trimmed. None where the pair holds no `=`.
pub open spec fn single_pair(pair: Seq<char>) -> Option<(Seq<char>, Seq<char>)> {
    let t = trimmed(pair);
    let eq = first_char_index(t, '=', 0);
    if eq < 0 {
        None
    } else {
        Some((trimmed(t.subrange(0, eq)), trimmed(t.subrange(eq + 1, t.len() as int))))
    }
}

/// Whether a character opens a bracket.
pub open spec fn opens(c: char) -> bool {
    c == '[' || c == '{' || c == '('
}

/// Whether a character closes a bracket.
pub open spec fn closes(c: char) -> bool {
    c == ']' || c == '}' || c == ')'
}

/// The index of the first comma at or after `i` that stands outside all
/// brackets, where `depth` brackets are open before `i`; -1 where there
/// is none.
pub open spec fn next_comma(s: Seq<char>, i: int, depth: int) -> int
    decreases s.len() - i,
{
    if i < 0 || i >= s.len() {
        -1
    } else if opens(s[i]) {
        next_comma(s, i + 1, depth + 1)
    } else if closes(s[i]) {
        next_comma(s, i + 1, depth - 1)
    } else if s[i] == ',' && depth == 0 {
        i
    } else {
        next_comma(s, i + 1, depth)
    }
}

/// A pair as a list of one, or the empty list.
pub open spec fn pair_list(p: Option<(Seq<char>, Seq<char>)>) -> Seq<(Seq<char>, Seq<char>)> {
    match p {
        Some(x) => seq![x],
        None => Seq::empty(),
    }
}

/// The pairs of a parameter list from index `start` on: the list is split
/// at the commas outside all brackets, and every piece that holds a `=`
/// gives a pair.
pub open spec fn pairs_from(s: Seq<char>, start: int) -> Seq<(Seq<char>, Seq<char>)>
    decreases s.len() - start,
{
    let c = next_comma(s, start, 0);
    if start < 0 || start > s.len() {
        Seq::empty()
    } else if c < start || c >= s.len() {
        pair_list(single_pair(s.subrange(start, s.len() as int)))
    } else {
        pair_list(single_pair(s.subrange(start, c))) + pairs_from(s, c + 1)
    }
}

/// The pairs of a parameter list.
pub open spec fn key_value_pairs(params: Seq<char>) -> Seq<(Seq<char>, Seq<char>)> {
    pairs_from(trimmed(params), 0)
}

/// The key and the value of a pair `key=value`.
pub fn parse_single_pair(pair: &str) -> (r: Option<(String, String)>)
    ensures
        r.deep_view() == single_pair(pair@),
{
    let s = chars_of(pair);
    proof {
        assert(s@.subrange(0, s@.len() as int) =~= s@);
    }
    single_pair_in(s.as_slice(), 0, s.len())
}

fn single_pair_in(s: &[char], lo: usize, hi: usize) -> (r: Option<(String, String)>)
    requires
        lo <= hi <= s@.len(),
    ensures
        r.deep_view() == single_pair(s@.subrange(lo as int, hi as int)),
{
    let (a, b) = trim_bounds(s, lo, hi);
    let t = slice_chars(s, a, b);
    match find_char_from(t.as_slice(), '=', 0) {
        Some(eq) => {
            let (ka, kb) = trim_bounds(t.as_slice(), 0, eq);
            let (va, vb) = trim_bounds(t.as_slice(), eq + 1, t.len());
            let key = slice_chars(t.as_slice(), ka, kb);
            let value = slice_chars(t.as_slice(), va, vb);
            Some((string_of(key.as_slice()), string_of(value.as_slice())))
        },
        None => None,
    }
}

fn comma_from(s: &[char], start: usize) -> (r: Option<usize>)
    requires
        start <= s@.len(),
    ensures
        match r {
            Some(c) => c == next_comma(s@, start as int, 0) && start <= c < s@.len(),
            None => next_comma(s@, start as int, 0) == -1,
        },
{
    let n: usize = s.len();
    let mut depth: i128 = 0;
    let mut i: usize = start;
    while i < n
        invariant
            n == s@.len(),
            start <= i <= n,
            -(i - start) <= depth <= i - start,
            next_comma(s@, start as int, 0) == next_comma(s@, i as int, depth as int),
        decreases n - i,
    {
        let c = s[i];
        if c == '[' || c == '{' || c == '(' {
            depth = depth + 1;
        } else if c == ']' || c == '}' || c == ')' {
            depth = depth - 1;
        } else if c == ',' && depth == 0 {
            return Some(i);
        }
        i += 1;
    }
    None
}

/// The pairs of a parameter list.
pub fn parse_key_value_pairs(params_str: &str) -> (r: Vec<(String, String)>)
    ensures
        r.deep_view() == key_value_pairs(params_str@),
{
    let whole = chars_of(params_str);
    let (a, b) = trim_bounds(whole.as_slice(), 0, whole.len());
    let s = slice_chars(whole.as_slice(), a, b);
    proof {
        assert(whole@.subrange(0, whole@.len() as int) =~= whole@);
    }
    let n: usize = s.len();
    let mut out: Vec<(String, String)> = Vec::new();
    let mut start: usize = 0;
    proof {
        assert(out.deep_view() + pairs_from(s@, 0) =~= pairs_from(s@, 0));
    }
    loop
        invariant
            n == s@.len(),
            start <= n,
            s@ == trimmed(params_str@),
            pairs_from(s@, 0) == out.deep_view() + pairs_from(s@, start as int),
        decreases n - start,
    {
        let ghost before = out.deep_view();
        match comma_from(s.as_slice(), start) {
            Some(c) => {
                let pair = single_pair_in(s.as_slice(), start, c);
                let ghost piece = pair_list(single_pair(s@.subrange(start as int, c as int)));
                match pair {
                    Some(p) => {
                        out.push(p);
                        proof {
                            assert(out.deep_view() =~= before + piece);
                        }
                    },
                    None => {
                        proof {
                            assert(out.deep_view() =~= before + piece);
                        }
                    },
                }
                proof {
                    assert(before + (piece + pairs_from(s@, c + 1)) =~= (before + piece)
                        + pairs_from(s@, c + 1));
                }
                start = c + 1;
            },
            None => {
                let pair = single_pair_in(s.as_slice(), start, n);
                let ghost piece = pair_list(single_pair(s@.subrange(start as int, n as int)));
                match pair {
                    Some(p) => {
                        out.push(p);
                        proof {
                            assert(out.deep_view() =~= before + piece);
                        }
                    },
                    None => {
                        proof {
                            assert(out.deep_view() =~= before + piece);
                        }
                    },
                }
                proof {
                    assert(pairs_from(s@, start as int) == piece);
                }
                return out;
            },
        }
    }
}

/// What a scan of the pairs of a `do(...)` call has found: the kind of
/// action, the parameters, and the keys that the quoted pairs have set.
pub struct DoScan {
    pub action: Option<Seq<char>>,
    pub params: Map<Seq<char>, ParamView>,
    pub keys: Seq<Seq<char>>,
}

/// The value that an unquoted text stands for: the JSON value where the
/// text is JSON, else the text itself.
pub open spec fn unquoted_value(text: Seq<char>) -> ParamView {
    match json_value(text) {
        Some(v) => v,
        None => ParamView::Text(text),
    }
}

/// The scan after one quoted pair: the key is noted; `action` names the
/// kind, any other key is a parameter with a text.
pub open spec fn quoted_pair_step(scan: DoScan, m: Seq<Option<Seq<char>>>) -> DoScan {
    if group(m, 1) is Some && group(m, 2) is Some {
        let k = group(m, 1)->0;
        let v = group(m, 2)->0;
        if k == "action"@ {
            DoScan { action: Some(v), params: scan.params, keys: scan.keys.push(k) }
        } else {
            DoScan {
                action: scan.action,
                params: scan.params.insert(k, ParamView::Text(v)),
                keys: scan.keys.push(k),
            }
        }
    } else {
        scan
    }
}

/// The scan after the first `k` quoted pairs.
pub open spec fn quoted_scan(ms: Seq<Seq<Option<Seq<char>>>>, k: int) -> DoScan
    decreases k,
{
    if k <= 0 || k > ms.len() {
        DoScan { action: None, params: Map::empty(), keys: Seq::empty() }
    } else {
        quoted_pair_step(quoted_scan(ms, k - 1), ms[k - 1])
    }
}

/// The scan after one plain pair: a key that a quoted pair has set is
/// passed over; `action` names the kind where none is named yet; any
/// other key is a parameter with the value that its text stands for.
pub open spec fn plain_pair_step(scan: DoScan, pair: (Seq<char>, Seq<char>)) -> DoScan {
    if scan.keys.contains(pair.0) {
        scan
    } else if pair.0 == "action"@ {
        if scan.action is None {
            DoScan { action: Some(pair.1), ..scan }
        } else {
            scan
        }
    } else {
        DoScan { params: scan.params.insert(pair.0, unquoted_value(pair.1)), ..scan }
    }
}

/// The scan after the first `k` plain pairs, begun with `scan`.
pub open spec fn plain_scan(pairs: Seq<(Seq<char>, Seq<char>)>, k: int, scan: DoScan) -> DoScan
    decreases k,
{
    if k <= 0 || k > pairs.len() {
        scan
    } else {
        plain_pair_step(plain_scan(pairs, k - 1, scan), pairs[k - 1])
    }
}

/// The operation of a `do(...)` call, given what the pattern of quoted
/// pairs matched in its body and the pairs of the body: none where no
/// pair names the kind.
pub open spec fn do_action_from_pairs(
    quoted: Seq<Seq<Option<Seq<char>>>>,
    pairs: Seq<(Seq<char>, Seq<char>)>,
    response: Seq<char>,
) -> Option<ParsedView> {
    let scan = plain_scan(pairs, pairs.len() as int, quoted_scan(quoted, quoted.len() as int));
    match scan.action {
        Some(name) => Some(
            ParsedView {
                action_type: normalized(name),
                parameters: scan.params,
                reasoning: response,
            },
        ),
        None => None,
    }
}

/// The operation of the first `do(...)` call of a response.
pub open spec fn do_action_in(response: Seq<char>) -> Option<ParsedView> {
    match first_capture(found(regex_captures(DO_CALL_PATTERN@, response))) {
        Some(body) => do_action_from_pairs(
            found(regex_captures(LOOSE_QUOTED_PATTERN@, body)),
            key_value_pairs(body),
            response,
        ),
        None => None,
    }
}

fn first_group_of(ms: &Vec<Vec<Option<String>>>) -> (r: Option<String>)
    ensures
        (match r {
            Some(t) => Some(t@),
            None => None,
        }) == first_capture(ms.deep_view()),
{
    if ms.len() == 0 {
        return None;
    }
    let m = &ms[0];
    if m.len() < 2 {
        return None;
    }
    match &m[1] {
        Some(t) => Some(t.clone()),
        None => None,
    }
}

fn holds_key(keys: &Vec<String>, key: &str) -> (b: bool)
    ensures
        b == keys.deep_view().contains(key@),
{
    let mut i: usize = 0;
    while i < keys.len()
        invariant
            i <= keys@.len(),
            forall|j: int| 0 <= j < i ==> keys.deep_view()[j] != key@,
        decreases keys@.len() - i,
    {
        if same_text(keys[i].as_str(), key) {
            proof {
                assert(keys.deep_view()[i as int] == key@);
            }
            return true;
        }
        i += 1;
    }
    false
}

fn value_of_unquoted(text: &str) -> (r: ParamValue)
    ensures
        r@ == unquoted_value(text@),
{
    match json_value_of(text) {
        Some(v) => v,
        None => ParamValue::Text(text.to_owned()),
    }
}

/// The operation of a `do(...)` call, given what the pattern of quoted
/// pairs matched in its body and the pairs of the body.
pub fn do_action_from(
    quoted: &Vec<Vec<Option<String>>>,
    pairs: &Vec<(String, String)>,
    response: &str,
) -> (r: Option<ParsedAction>)
    ensures
        opt_parsed(r) == do_action_from_pairs(quoted.deep_view(), pairs.deep_view(), response@),
{
    let mut action: Option<String> = None;
    let mut params = Params::new();
    let mut keys: Vec<String> = Vec::new();
    let ghost qs = quoted.deep_view();
    let mut i: usize = 0;
    proof {
        assert(keys.deep_view() =~= Seq::<Seq<char>>::empty());
    }
    while i < quoted.len()
        invariant
            i <= quoted@.len(),
            qs == quoted.deep_view(),
            (DoScan {
                action: match action {
                    Some(a) => Some(a@),
                    None => None,
                },
                params: params@,
                keys: keys.deep_view(),
            }) == quoted_scan(qs, i as int),
        decreases quoted@.len() - i,
    {
        let m = &quoted[i];
        proof {
            assert(qs[i as int] == m.deep_view());
        }
        if m.len() > 2 {
            match (&m[1], &m[2]) {
                (Some(k), Some(v)) => {
                    proof {
                        assert(group(m.deep_view(), 1) == Some(k@));
                        assert(group(m.deep_view(), 2) == Some(v@));
                    }
                    let ghost before = keys.deep_view();
                    keys.push(k.clone());
                    proof {
                        assert(keys.deep_view() =~= before.push(k@));
                    }
                    if same_text(k.as_str(), "action") {
                        action = Some(v.clone());
                    } else {
                        params.insert(k.clone(), ParamValue::Text(v.clone()));
                    }
                },
                _ => {
                    proof {
                        assert(group(m.deep_view(), 1) is None || group(m.deep_view(), 2) is None);
                    }
                },
            }
        }
        i += 1;
    }
    let ghost start = quoted_scan(qs, qs.len() as int);
    let ghost ps = pairs.deep_view();
    let mut j: usize = 0;
    while j < pairs.len()
        invariant
            j <= pairs@.len(),
            ps == pairs.deep_view(),
            keys.deep_view() == start.keys,
            (DoScan {
                action: match action {
                    Some(a) => Some(a@),
                    None => None,
                },
                params: params@,
                keys: keys.deep_view(),
            }) == plain_scan(ps, j as int, start),
        decreases pairs@.len() - j,
    {
        let key = &pairs[j].0;
        let value = &pairs[j].1;
        proof {
            assert(ps[j as int] == (key@, value@));
        }
        if !holds_key(&keys, key.as_str()) {
            if same_text(key.as_str(), "action") {
                if action.is_none() {
                    action = Some(value.clone());
                }
            } else {
                params.insert(key.clone(), value_of_unquoted(value.as_str()));
            }
        }
        j += 1;
    }
    match action {
        Some(name) => Some(
            ParsedAction {
                action_type: normalize_action_type(name.as_str()),
                parameters: params,
                reasoning: response.to_owned(),
            },
        ),
        None => None,
    }
}

/// The operation of the first `do(...)` call of a response: the kind
/// that `action` names, and the other pairs as parameters.
pub fn try_parse_do_action(response: &str) -> (r: Option<ParsedAction>)
    ensures
        opt_parsed(r) == do_action_in(response@),
{
    let calls = matches_of(DO_CALL_PATTERN, response);
    match first_group_of(&calls) {
        Some(body) => {
            let quoted = matches_of(LOOSE_QUOTED_PATTERN, body.as_str());
            let pairs = parse_key_value_pairs(body.as_str());
            do_action_from(&quoted, &pairs, response)
        },
        None => None,
    }
}

/// What stands between the first `open` of a text and the first `close`
/// after it.
pub open spec fn between(s: Seq<char>, open: Seq<char>, close: Seq<char>) -> Option<Seq<char>> {
    let start = first_index(s, open, 0);
    let from = start + open.len();
    let end = first_index(s, close, from);
    if start < 0 || end < 0 {
        None
    } else {
        Some(s.subrange(from, end))
    }
}

/// The end of an unquoted message that begins at `from`: the next `)`,
/// else the next line break, else the end of the text.
pub open spec fn unquoted_end(s: Seq<char>, from: int) -> int {
    let paren = first_char_index(s, ')', from);
    let line = first_char_index(s, '\n', from);
    if paren >= 0 {
        paren
    } else if line >= 0 {
        line
    } else {
        s.len() as int
    }
}

/// The message of a `finish(message=...)` call whose message stands in
/// no quotes: what stands from the `=` to the end of the message,
/// trimmed.
pub open spec fn unquoted_message(s: Seq<char>) -> Option<Seq<char>> {
    let label = "finish(message="@;
    let start = first_index(s, label, 0);
    let from = if label.len() > 0 {
        start + label.len() - 1
    } else {
        start
    };
    if start < 0 {
        None
    } else {
        Some(trimmed(s.subrange(from, unquoted_end(s, from))))
    }
}

/// The message of the finish call of a response: of
/// `finish(message="...")`, else of `finish(message=...)`, else of
/// `finish("...")`.
pub open spec fn finish_message_in(s: Seq<char>) -> Option<Seq<char>> {
    if between(s, "finish(message=\""@, "\")"@) is Some {
        between(s, "finish(message=\""@, "\")"@)
    } else if unquoted_message(s) is Some {
        unquoted_message(s)
    } else {
        between(s, "finish(\""@, "\")"@)
    }
}

/// The operation that a finish stands for: it succeeds with the message.
pub open spec fn finish_parsed(message: Seq<char>, response: Seq<char>) -> ParsedView {
    ParsedView {
        action_type: "finish"@,
        parameters: Map::<Seq<char>, ParamView>::empty().insert(
            "result"@,
            ParamView::Text(message),
        ).insert("success"@, ParamView::Bool(true)),
        reasoning: response,
    }
}

fn text_between(s: &[char], open: &str, close: &str) -> (r: Option<String>)
    ensures
        (match r {
            Some(t) => Some(t@),
            None => None,
        }) == between(s@, open@, close@),
{
    let o = chars_of(open);
    let c = chars_of(close);
    let n: usize = s.len();
    match find_from(s, o.as_slice(), 0) {
        Some(start) => {
            proof {
                lemma_first_index(s@, o@, 0);
            }
            let from: usize = start + o.len();
            match find_from(s, c.as_slice(), from) {
                Some(end) => {
                    proof {
                        lemma_first_index(s@, c@, from as int);
                    }
                    let inner = slice_chars(s, from, end);
                    Some(string_of(inner.as_slice()))
                },
                None => None,
            }
        },
        None => None,
    }
}

fn finish_action(message: String, response: &str) -> (r: ParsedAction)
    ensures
        r@ == finish_parsed(message@, response@),
{
    let mut params = Params::new();
    params.insert("result".to_owned(), ParamValue::Text(message));
    params.insert("success".to_owned(), ParamValue::Bool(true));
    ParsedAction { action_type: "finish".to_owned(), parameters: params, reasoning: response.to_owned() }
}

/// The finish that a response declares, in any of its three forms.
pub fn try_parse_finish_action(response: &str) -> (r: Option<ParsedAction>)
    ensures
        opt_parsed(r) == (match finish_message_in(response@) {
            Some(message) => Some(finish_parsed(message, response@)),
            None => None,
        }),
{
    let s = chars_of(response);
    let n: usize = s.len();
    match text_between(s.as_slice(), "finish(message=\"", "\")") {
        Some(message) => {
            return Some(finish_action(message, response));
        },
        None => {},
    }
    let label = chars_of("finish(message=");
    match find_from(s.as_slice(), label.as_slice(), 0) {
        Some(start) => {
            proof {
                lemma_first_index(s@, label@, 0);
            }
            let from: usize = if label.len() > 0 {
                start + label.len() - 1
            } else {
                start
            };
            let end: usize = match find_char_from(s.as_slice(), ')', from) {
                Some(p) => p,
                None => match find_char_from(s.as_slice(), '\n', from) {
                    Some(l) => l,
                    None => n,
                },
            };
            let (a, b) = trim_bounds(s.as_slice(), from, end);
            let inner = slice_chars(s.as_slice(), a, b);
            return Some(finish_action(string_of(inner.as_slice()), response));
        },
        None => {},
    }
    match text_between(s.as_slice(), "finish(\"", "\")") {
        Some(message) => Some(finish_action(message, response)),
        None => None,
    }
}

/// The parameters that the members of a JSON object stand for, after the
/// first `k` members.
pub open spec fn member_params(members: Seq<(Seq<char>, Seq<char>)>, k: int) -> Map<
    Seq<char>,
    ParamView,
>
    decreases k,
{
    if k <= 0 || k > members.len() {
        Map::empty()
    } else {
        member_params(members, k - 1).insert(members[k - 1].0, unquoted_value(members[k - 1].1))
    }
}

/// The member that names the kind of operation: `action_type`, else
/// `type`, else `action`, whichever the object holds first in this order.
pub open spec fn kind_member(p: Map<Seq<char>, ParamView>) -> Option<ParamView> {
    if p.contains_key("action_type"@) {
        Some(p["action_type"@])
    } else if p.contains_key("type"@) {
        Some(p["type"@])
    } else if p.contains_key("action"@) {
        Some(p["action"@])
    } else {
        None
    }
}

/// The operation that a JSON object stands for: its members are the
/// parameters, and the member that names the kind must be a text.
pub open spec fn json_parsed(block: Seq<char>, response: Seq<char>) -> Option<ParsedView> {
    match json_members(block) {
        Some(members) => {
            let p = member_params(members, members.len() as int);
            match kind_member(p) {
                Some(ParamView::Text(kind)) => Some(
                    ParsedView { action_type: kind, parameters: p, reasoning: response },
                ),
                _ => None,
            }
        },
        None => None,
    }
}

/// The operation of the first JSON object, among the first `k` matches of
/// the pattern, that stands for one.
pub open spec fn json_action_in(
    blocks: Seq<Seq<Option<Seq<char>>>>,
    from: int,
    response: Seq<char>,
) -> Option<ParsedView>
    decreases blocks.len() - from,
{
    if from < 0 || from >= blocks.len() {
        None
    } else {
        let here = match group(blocks[from], 0) {
            Some(block) => json_parsed(block, response),
            None => None,
        };
        if here is Some {
            here
        } else {
            json_action_in(blocks, from + 1, response)
        }
    }
}

fn parse_json_block(block: &str, response: &str) -> (r: Option<ParsedAction>)
    ensures
        opt_parsed(r) == json_parsed(block@, response@),
{
    let members = match json_members_of(block) {
        Some(m) => m,
        None => {
            return None;
        },
    };
    let ghost ms = members.deep_view();
    let mut params = Params::new();
    let mut i: usize = 0;
    while i < members.len()
        invariant
            i <= members@.len(),
            ms == members.deep_view(),
            params@ == member_params(ms, i as int),
        decreases members@.len() - i,
    {
        proof {
            assert(ms[i as int] == (members@[i as int].0@, members@[i as int].1@));
        }
        params.insert(members[i].0.clone(), value_of_unquoted(members[i].1.as_str()));
        i += 1;
    }
    let kind: Option<String> = match params.get("action_type") {
        Some(v) => match v {
            ParamValue::Text(t) => Some(t.clone()),
            _ => None,
        },
        None => match params.get("type") {
            Some(v) => match v {
                ParamValue::Text(t) => Some(t.clone()),
                _ => None,
            },
            None => match params.get("action") {
                Some(v) => match v {
                    ParamValue::Text(t) => Some(t.clone()),
                    _ => None,
                },
                None => None,
            },
        },
    };
    match kind {
        Some(k) => Some(
            ParsedAction { action_type: k, parameters: params, reasoning: response.to_owned() },
        ),
        None => None,
    }
}

/// The operation of the first JSON object of a response that stands for
/// one, given the matches of the pattern of JSON objects in it.
pub fn json_action_from(blocks: &Vec<Vec<Option<String>>>, response: &str) -> (r: Option<
    ParsedAction,
>)
    ensures
        opt_parsed(r) == json_action_in(blocks.deep_view(), 0, response@),
{
    let ghost bs = blocks.deep_view();
    let mut i: usize = 0;
    while i < blocks.len()
        invariant
            i <= blocks@.len(),
            bs == blocks.deep_view(),
            json_action_in(bs, 0, response@) == json_action_in(bs, i as int, response@),
        decreases blocks@.len() - i,
    {
        let m = &blocks[i];
        proof {
            assert(bs[i as int] == m.deep_view());
        }
        if m.len() > 0 {
            match &m[0] {
                Some(block) => {
                    proof {
                        assert(group(m.deep_view(), 0) == Some(block@));
                    }
                    match parse_json_block(block.as_str(), response) {
                        Some(parsed) => {
                            return Some(parsed);
                        },
                        None => {},
                    }
                },
                None => {},
            }
        }
        i += 1;
    }
    None
}

/// The operation of the first JSON object of a response that stands for
/// one.
pub fn try_parse_json_action(response: &str) -> (r: Option<ParsedAction>)
    ensures
        opt_parsed(r) == json_action_in(
            found(regex_captures(JSON_BLOCK_PATTERN@, response@)),
            0,
            response@,
        ),
{
    let blocks = matches_of(JSON_BLOCK_PATTERN, response);
    json_action_from(&blocks, response)
}

/// Whether a response speaks of completion.
pub open spec fn speaks_of_completion(response: Seq<char>) -> bool {
    completion_in(lowercase(response))
}

/// Whether a response, given in lower case, speaks of completion: it
/// holds `finish`, `done` or `complete`.
pub open spec fn completion_in(lower: Seq<char>) -> bool {
    has(lower, "finish"@) || has(lower, "done"@) || has(lower, "complete"@)
}

/// Whether a response, given in lower case, speaks of completion.
pub fn mentions_completion(lower: &str) -> (b: bool)
    ensures
        b == completion_in(lower@),
{
    let l = chars_of(lower);
    let finish = chars_of("finish");
    let done = chars_of("done");
    let complete = chars_of("complete");
    contains(l.as_slice(), finish.as_slice()) || contains(l.as_slice(), done.as_slice())
        || contains(l.as_slice(), complete.as_slice())
}

/// The first `n` characters of a text, or all of it where it is shorter.
pub open spec fn prefix_of(s: Seq<char>, n: int) -> Seq<char> {
    if s.len() <= n {
        s
    } else {
        s.subrange(0, n)
    }
}

/// The message of a completion, given what the pattern of quoted texts
/// matched in the response: the first quoted text, else the response
/// itself, trimmed, and cut after a hundred characters with three dots.
pub open spec fn completion_message_from(
    quoted: Seq<Seq<Option<Seq<char>>>>,
    response: Seq<char>,
) -> Seq<char> {
    match first_capture(quoted) {
        Some(t) => t,
        None => if trimmed(response).len() > 100 {
            prefix_of(trimmed(response), 100) + "..."@
        } else {
            trimmed(response)
        },
    }
}

/// The message of a completion.
pub fn extract_completion_message(text: &str) -> (r: String)
    ensures
        r@ == completion_message_from(found(regex_captures(QUOTED_TEXT_PATTERN@, text@)), text@),
{
    let quoted = matches_of(QUOTED_TEXT_PATTERN, text);
    match first_group_of(&quoted) {
        Some(t) => t,
        None => {
            let s = chars_of(text);
            let (a, b) = trim_bounds(s.as_slice(), 0, s.len());
            proof {
                assert(s@.subrange(0, s@.len() as int) =~= s@);
            }
            if b - a > 100 {
                let mut v = slice_chars(s.as_slice(), a, a + 100);
                crate::text::push_text(&mut v, "...");
                proof {
                    assert(s@.subrange(a as int, b as int).subrange(0, 100) =~= s@.subrange(
                        a as int,
                        a + 100,
                    ));
                }
                string_of(v.as_slice())
            } else {
                let v = slice_chars(s.as_slice(), a, b);
                string_of(v.as_slice())
            }
        },
    }
}

/// The operation of a response: of its first `do(...)` call, else of its
/// finish call, else of its first JSON object that stands for one, else a
/// finish where the response speaks of completion, else none.
pub open spec fn action_in_response(response: Seq<char>) -> Option<ParsedView> {
    if do_action_in(response) is Some {
        do_action_in(response)
    } else if finish_message_in(response) is Some {
        Some(finish_parsed(finish_message_in(response)->0, response))
    } else if json_action_in(found(regex_captures(JSON_BLOCK_PATTERN@, response)), 0, response)
        is Some {
        json_action_in(found(regex_captures(JSON_BLOCK_PATTERN@, response)), 0, response)
    } else if speaks_of_completion(response) {
        Some(
            finish_parsed(
                completion_message_from(
                    found(regex_captures(QUOTED_TEXT_PATTERN@, response)),
                    response,
                ),
                response,
            ),
        )
    } else {
        None
    }
}

/// The operation of a response, in any of the forms known; none where
/// the response holds no operation, which is no error.
pub fn parse_action_from_response(response: &str) -> (r: Result<Option<ParsedAction>, ModelError>)
    ensures
        r matches Ok(parsed) && opt_parsed(parsed) == action_in_response(response@),
{
    match try_parse_do_action(response) {
        Some(action) => {
            return Ok(Some(action));
        },
        None => {},
    }
    match try_parse_finish_action(response) {
        Some(action) => {
            return Ok(Some(action));
        },
        None => {},
    }
    match try_parse_json_action(response) {
        Some(action) => {
            return Ok(Some(action));
        },
        None => {},
    }
    let lower = to_lowercase(response);
    if mentions_completion(lower.as_str()) {
        let message = extract_completion_message(response);
        return Ok(Some(finish_action(message, response)));
    }
    Ok(None)
}

/// The point in round brackets that a text holds, given the matches of
/// the pattern of points in it: both numbers of the first match, read by
/// `str::parse::<u32>`.
pub open spec fn coordinates_from(ms: Seq<Seq<Option<Seq<char>>>>) -> Option<(u32, u32)> {
    if ms.len() > 0 && group(ms[0], 1) is Some && group(ms[0], 2) is Some {
        match (
            unsigned_of(group(ms[0], 1)->0, u32::MAX as nat),
            unsigned_of(group(ms[0], 2)->0, u32::MAX as nat),
        ) {
            (Some(x), Some(y)) => Some((x as u32, y as u32)),
            _ => None,
        }
    } else {
        None
    }
}

fn number_in(text: &str) -> (r: Option<u32>)
    ensures
        match r {
            Some(n) => unsigned_of(text@, u32::MAX as nat) == Some(n as nat),
            None => unsigned_of(text@, u32::MAX as nat) is None,
        },
{
    let v = chars_of(text);
    parse_u32(v.as_slice())
}

/// The point in round brackets that a text holds.
pub fn extract_coordinates(text: &str) -> (r: Option<(u32, u32)>)
    ensures
        r == coordinates_from(found(regex_captures(COORDINATES_PATTERN@, text@))),
{
    let ms = matches_of(COORDINATES_PATTERN, text);
    if ms.len() == 0 {
        return None;
    }
    let m = &ms[0];
    if m.len() < 3 {
        return None;
    }
    match (&m[1], &m[2]) {
        (Some(a), Some(b)) => {
            proof {
                assert(group(m.deep_view(), 1) == Some(a@));
                assert(group(m.deep_view(), 2) == Some(b@));
            }
            match (number_in(a.as_str()), number_in(b.as_str())) {
                (Some(x), Some(y)) => Some((x, y)),
                _ => None,
            }
        },
        _ => {
            proof {
                assert(group(m.deep_view(), 1) is None || group(m.deep_view(), 2) is None);
            }
            None
        },
    }
}

/// The number that the first match of a pattern captured first, read by
/// `str::parse::<u32>`.
pub open spec fn captured_number(ms: Seq<Seq<Option<Seq<char>>>>) -> Option<u32> {
    match first_capture(ms) {
        Some(digits) => match unsigned_of(digits, u32::MAX as nat) {
            Some(n) => Some(n as u32),
            None => None,
        },
        None => None,
    }
}

/// The duration in milliseconds that a text states, given the matches of
/// the two patterns in its lower-case form: a number of seconds where the
/// text states one, which must fit 32 bits in milliseconds; else a number
/// of milliseconds.
pub open spec fn duration_from(
    seconds: Seq<Seq<Option<Seq<char>>>>,
    millis: Seq<Seq<Option<Seq<char>>>>,
) -> Option<u32> {
    if first_capture(seconds) is Some {
        match captured_number(seconds) {
            Some(s) => if s * 1000 <= u32::MAX {
                Some((s * 1000) as u32)
            } else {
                None
            },
            None => None,
        }
    } else if first_capture(millis) is Some {
        captured_number(millis)
    } else {
        None
    }
}

/// The duration in milliseconds that a text states.
pub fn extract_duration(text: &str) -> (r: Option<u32>)
    ensures
        r == duration_from(
            found(regex_captures(SECONDS_PATTERN@, lowercase(text@))),
            found(regex_captures(MILLIS_PATTERN@, lowercase(text@))),
        ),
{
    let lower = to_lowercase(text);
    let seconds = matches_of(SECONDS_PATTERN, lower.as_str());
    let millis = matches_of(MILLIS_PATTERN, lower.as_str());
    duration_of_matches(&seconds, &millis)
}

/// The duration in milliseconds that a text states, given what the
/// patterns of seconds and of milliseconds matched in it.
pub fn duration_of_matches(seconds: &Vec<Vec<Option<String>>>, millis: &Vec<Vec<Option<String>>>) -> (r:
    Option<u32>)
    ensures
        r == duration_from(seconds.deep_view(), millis.deep_view()),
{
    match first_group_of(seconds) {
        Some(digits) => {
            return match number_in(digits.as_str()) {
                Some(s) => if s <= 4_294_967 {
                    Some(s * 1000)
                } else {
                    None
                },
                None => None,
            };
        },
        None => {},
    }
    match first_group_of(millis) {
        Some(digits) => number_in(digits.as_str()),
        None => None,
    }
}

/// The first line of what follows a keyword in a text, trimmed; none
/// where the text does not hold the keyword or nothing but white space
/// follows it.
pub open spec fn text_after_keyword(text: Seq<char>, keyword: Seq<char>) -> Option<Seq<char>> {
    let at = first_index(text, keyword, 0);
    let rest = trimmed(text.subrange(at + keyword.len(), text.len() as int));
    let line_end = first_char_index(rest, '\n', 0);
    if at < 0 || rest.len() == 0 {
        None
    } else if line_end < 0 {
        Some(trimmed(rest))
    } else {
        Some(trimmed(rest.subrange(0, line_end)))
    }
}

/// The text after the first of the keywords, from index `from` on, that
/// the text holds with something after it.
pub open spec fn text_after_any(text: Seq<char>, keywords: Seq<Seq<char>>, from: int) -> Option<
    Seq<char>,
>
    decreases keywords.len() - from,
{
    if from < 0 || from >= keywords.len() {
        None
    } else if text_after_keyword(text, keywords[from]) is Some {
        text_after_keyword(text, keywords[from])
    } else {
        text_after_any(text, keywords, from + 1)
    }
}

fn after_keyword(s: &[char], keyword: &str) -> (r: Option<String>)
    ensures
        (match r {
            Some(t) => Some(t@),
            None => None,
        }) == text_after_keyword(s@, keyword@),
{
    let k = chars_of(keyword);
    let n: usize = s.len();
    let at = match find_from(s, k.as_slice(), 0) {
        Some(at) => at,
        None => {
            return None;
        },
    };
    proof {
        lemma_first_index(s@, k@, 0);
    }
    let (a, b) = trim_bounds(s, at + k.len(), s.len());
    if a == b {
        return None;
    }
    let rest = slice_chars(s, a, b);
    let end: usize = match find_char_from(rest.as_slice(), '\n', 0) {
        Some(e) => e,
        None => {
            proof {
                assert(rest@.subrange(0, rest@.len() as int) =~= rest@);
            }
            rest.len()
        },
    };
    let (c, d) = trim_bounds(rest.as_slice(), 0, end);
    let line = slice_chars(rest.as_slice(), c, d);
    Some(string_of(line.as_slice()))
}

/// The first line of what follows the first of the keywords that the
/// text holds with something after it.
pub fn extract_text_after(text: &str, keywords: &Vec<String>) -> (r: Option<String>)
    ensures
        (match r {
            Some(t) => Some(t@),
            None => None,
        }) == text_after_any(text@, keywords.deep_view(), 0),
{
    let s = chars_of(text);
    let ghost ks = keywords.deep_view();
    let mut i: usize = 0;
    while i < keywords.len()
        invariant
            i <= keywords@.len(),
            ks == keywords.deep_view(),
            s@ == text@,
            text_after_any(text@, ks, 0) == text_after_any(text@, ks, i as int),
        decreases keywords@.len() - i,
    {
        proof {
            assert(ks[i as int] == keywords@[i as int]@);
        }
        match after_keyword(s.as_slice(), keywords[i].as_str()) {
            Some(t) => {
                return Some(t);
            },
            None => {},
        }
        i += 1;
    }
    None
}

} // verus!
