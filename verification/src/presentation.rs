//! What the transcript shows of its messages and tool calls, as plain text
//! and plain values. Drawing it is the program's part.

use crate::cancellation::status_is_terminal;
use crate::client::api::SessionInfo;
use crate::config::models::{is_model, CuratedModel, CuratedModelView};
use crate::models_dev::ModelsDevProvider;
use crate::seqs::{first_index, lemma_first_index_is};
use crate::startup::auth::{AuthSyncStatus, AuthSyncStatusView};
use crate::text::contains_text;
use crate::client::providers::{DiscoveredModel, DiscoveredModelView};
use crate::decode::text_at;
use crate::json::{as_text, json_of, member, parse, parsed_json, render, rendered, Json};
use crate::text::{
    chars_of, contains, decimal, decimal_of, join, joined, lowercase, occurs_in, same, starts_with,
    text_of, to_lowercase,
};
use crate::transcript::{is_terminal, TokenCounts, ToolCall};
use vstd::prelude::*;

verus! {

/// The counters of a message, each with its label.
pub open spec fn counter_labels(tokens: TokenCounts) -> Seq<Seq<char>> {
    let input = match tokens.input {
        Some(n) => seq!["in "@ + decimal(n as nat)],
        None => Seq::empty(),
    };
    let output = match tokens.output {
        Some(n) => seq!["out "@ + decimal(n as nat)],
        None => Seq::empty(),
    };
    let reasoning = match tokens.reasoning {
        Some(n) => seq!["reason "@ + decimal(n as nat)],
        None => Seq::empty(),
    };
    input + output + reasoning
}

/// The line that shows the counters of a message; none where the message
/// has no counter.
pub open spec fn tokens_line(tokens: TokenCounts) -> Option<Seq<char>> {
    if counter_labels(tokens).len() == 0 {
        None
    } else {
        Some("tokens: "@ + joined(counter_labels(tokens), ", "@))
    }
}

/// The line that shows the counters of a message.
pub fn tokens_label(tokens: &TokenCounts) -> (r: Option<String>)
    ensures
        r.deep_view() == tokens_line(*tokens),
{
    let mut labels: Vec<String> = Vec::new();
    assert(labels.deep_view() =~= Seq::empty());
    if let Some(n) = tokens.input {
        labels.push("in ".to_string().concat(decimal_of(n).as_str()));
        assert(labels.deep_view() =~= seq!["in "@ + decimal(n as nat)]);
    }
    let ghost first = labels.deep_view();
    if let Some(n) = tokens.output {
        labels.push("out ".to_string().concat(decimal_of(n).as_str()));
        assert(labels.deep_view() =~= first + seq!["out "@ + decimal(n as nat)]);
    } else {
        assert(labels.deep_view() =~= first + Seq::<Seq<char>>::empty());
    }
    let ghost second = labels.deep_view();
    if let Some(n) = tokens.reasoning {
        labels.push("reason ".to_string().concat(decimal_of(n).as_str()));
        assert(labels.deep_view() =~= second + seq!["reason "@ + decimal(n as nat)]);
    } else {
        assert(labels.deep_view() =~= second + Seq::<Seq<char>>::empty());
    }
    if labels.len() == 0 {
        None
    } else {
        Some("tokens: ".to_string().concat(join(&labels, ", ").as_str()))
    }
}

/// The sign that stands for a status: done, failed, cancelled, or still
/// under way.
pub open spec fn icon_of(status: Seq<char>) -> Seq<char> {
    if status == "success"@ || status == "completed"@ {
        "\u{2705}"@
    } else if status == "error"@ {
        "\u{274c}"@
    } else if status == "cancelled"@ {
        "\u{1f6ab}"@
    } else {
        "\u{23f3}"@
    }
}

/// The sign that stands for a status.
pub fn status_icon(status: &str) -> (r: &'static str)
    ensures
        r@ == icon_of(status@),
{
    if same(status, "success") || same(status, "completed") {
        "\u{2705}"
    } else if same(status, "error") {
        "\u{274c}"
    } else if same(status, "cancelled") {
        "\u{1f6ab}"
    } else {
        "\u{23f3}"
    }
}

/// Whether the block of a tool call is open unless the user closed it: the
/// call is under way, waits for a permission, or has failed.
pub fn opens_by_default(tool: &ToolCall, has_permission: bool) -> (r: bool)
    ensures
        r == (!is_terminal(tool@.status) || has_permission || tool@.error is Some),
{
    !status_is_terminal(tool.status.as_str()) || has_permission || tool.error.is_some()
}

/// The input that a summary reads: where the input is a string that writes
/// down a JSON document, that document; else the input itself.
pub open spec fn effective_input(input: Json) -> Json {
    match input {
        Json::Str(s) => match parsed_json(s) {
            Some(j) => j,
            None => input,
        },
        _ => input,
    }
}

/// The argument `key` of a tool's input: the string under `key`, or else the
/// string under `key` of its `parameters`.
pub open spec fn argument(input: Json, key: Seq<char>) -> Option<Seq<char>> {
    match input.text_field(key) {
        Some(t) => Some(t),
        None => match input.field("parameters"@) {
            Some(p) => p.text_field(key),
            None => None,
        },
    }
}

/// The first of two options that is there.
pub open spec fn or_else(a: Option<Seq<char>>, b: Option<Seq<char>>) -> Option<Seq<char>> {
    match a {
        Some(_) => a,
        None => b,
    }
}

/// What a tool call is about, in one line: its command, else the file it
/// works on, else its address, else its prompt.
pub open spec fn summary_of(input: Json) -> Option<Seq<char>> {
    let j = effective_input(input);
    or_else(
        argument(j, "command"@),
        or_else(
            argument(j, "filePath"@),
            or_else(
                argument(j, "path"@),
                or_else(
                    argument(j, "file_path"@),
                    or_else(
                        argument(j, "filename"@),
                        or_else(argument(j, "url"@), argument(j, "prompt"@)),
                    ),
                ),
            ),
        ),
    )
}

/// The string under `key` of an object.
pub fn extract_field_as_string(value: &serde_json::Value, key: &str) -> (r: Option<String>)
    ensures
        r.deep_view() == json_of(*value).text_field(key@),
{
    text_at(value, key)
}

/// The argument `key` of a tool's input.
pub fn argument_of(input: &serde_json::Value, key: &str) -> (r: Option<String>)
    ensures
        r.deep_view() == argument(json_of(*input), key@),
{
    match extract_field_as_string(input, key) {
        Some(t) => Some(t),
        None => match member(input, "parameters") {
            Some(p) => extract_field_as_string(p, key),
            None => None,
        },
    }
}

/// The first argument of a tool's input that is there, among `keys` in
/// order.
pub fn first_argument(input: &serde_json::Value, keys: &[&str]) -> (r: Option<String>)
    ensures
        r.deep_view() == first_of(json_of(*input), keys.deep_view()),
{
    let ghost all = keys.deep_view();
    let mut i: usize = 0;
    assert(all.skip(0) =~= all);
    while i < keys.len()
        invariant
            0 <= i <= keys.len(),
            all == keys.deep_view(),
            first_of(json_of(*input), all) == first_of(json_of(*input), all.skip(i as int)),
        decreases keys.len() - i,
    {
        proof {
            assert(all.skip(i as int)[0] == keys[i as int]@);
            assert(all.skip(i as int).drop_first() =~= all.skip(i as int + 1));
        }
        if let Some(t) = argument_of(input, keys[i]) {
            return Some(t);
        }
        i = i + 1;
    }
    None
}

/// The first argument of a tool's input that is there, among `keys` in
/// order.
pub open spec fn first_of(input: Json, keys: Seq<Seq<char>>) -> Option<Seq<char>>
    decreases keys.len(),
{
    if keys.len() == 0 {
        None
    } else {
        or_else(argument(input, keys[0]), first_of(input, keys.drop_first()))
    }
}

/// The keys that a summary tries, in order.
pub open spec fn summary_keys() -> Seq<Seq<char>> {
    seq!["command"@, "filePath"@, "path"@, "file_path"@, "filename"@, "url"@, "prompt"@]
}

/// What a tool call is about, in one line.
pub fn tool_summary(input: &serde_json::Value) -> (r: Option<String>)
    ensures
        r.deep_view() == summary_of(json_of(*input)),
{
    let keys: [&str; 7] = ["command", "filePath", "path", "file_path", "filename", "url", "prompt"];
    proof {
        let j = effective_input(json_of(*input));
        assert(keys.deep_view() =~= summary_keys());
        reveal_with_fuel(first_of, 8);
        assert(summary_keys().drop_first() =~= seq![
            "filePath"@,
            "path"@,
            "file_path"@,
            "filename"@,
            "url"@,
            "prompt"@,
        ]);
        assert(summary_keys().drop_first().drop_first() =~= seq![
            "path"@,
            "file_path"@,
            "filename"@,
            "url"@,
            "prompt"@,
        ]);
        assert(summary_keys().drop_first().drop_first().drop_first() =~= seq![
            "file_path"@,
            "filename"@,
            "url"@,
            "prompt"@,
        ]);
        assert(summary_keys().drop_first().drop_first().drop_first().drop_first() =~= seq![
            "filename"@,
            "url"@,
            "prompt"@,
        ]);
        assert(summary_keys().drop_first().drop_first().drop_first().drop_first().drop_first()
            =~= seq!["url"@, "prompt"@]);
        assert(
            summary_keys().drop_first().drop_first().drop_first().drop_first().drop_first().drop_first()
            =~= seq!["prompt"@]);
        assert(seq!["prompt"@].drop_first() =~= Seq::<Seq<char>>::empty());
        assert(first_of(j, summary_keys()) == summary_of(json_of(*input)));
    }
    if let Some(s) = as_text(input) {
        if let Some(document) = parse(s) {
            return first_argument(&document, keys.as_slice());
        }
    }
    first_argument(input, keys.as_slice())
}

/// A value as the block of a tool call shows it: a string in quotes, as it
/// is; everything else as compact JSON.
pub fn format_json_value(value: &serde_json::Value) -> (r: String)
    ensures
        r@ == (match json_of(*value) {
            Json::Str(s) => "\""@ + s + "\""@,
            _ => rendered(*value),
        }),
{
    match as_text(value) {
        Some(s) => {
            let mut out = "\"".to_string();
            out.append(s);
            out.append("\"");
            out
        },
        None => render(value),
    }
}

/// How close a token is to running out.
#[derive(Debug, Clone, Copy, PartialEq, Eq, Structural)]
pub enum Urgency {
    /// The token has run out.
    Expired,
    /// Less than five minutes are left.
    Soon,
    Fine,
}

/// How close a token is to running out, by the text of its remaining time.
pub open spec fn urgency_of(remaining: Seq<char>) -> Urgency {
    if occurs_in(remaining, "Expired"@) {
        Urgency::Expired
    } else if "0m"@.is_prefix_of(remaining) || "1m"@.is_prefix_of(remaining) || "2m"@.is_prefix_of(
        remaining,
    ) || "3m"@.is_prefix_of(remaining) || "4m"@.is_prefix_of(remaining) {
        Urgency::Soon
    } else {
        Urgency::Fine
    }
}

/// How close a token is to running out, by the text of its remaining time.
pub fn urgency(remaining: &str) -> (r: Urgency)
    ensures
        r == urgency_of(remaining@),
{
    if contains(remaining, "Expired") {
        Urgency::Expired
    } else if starts_with(remaining, "0m") || starts_with(remaining, "1m") || starts_with(
        remaining,
        "2m",
    ) || starts_with(remaining, "3m") || starts_with(remaining, "4m") {
        Urgency::Soon
    } else {
        Urgency::Fine
    }
}

/// Whether a model answers to a search that is written in lowercase: the
/// search is empty, or stands in the model's id or name, whatever their case.
pub open spec fn answers_search(m: DiscoveredModelView, search: Seq<char>) -> bool {
    search.len() == 0 || occurs_in(lowercase(m.id), search) || occurs_in(lowercase(m.name), search)
}

/// The condition "this model answers to the search".
pub open spec fn is_found_by(search: Seq<char>) -> spec_fn(DiscoveredModelView) -> bool {
    |m: DiscoveredModelView| answers_search(m, lowercase(search))
}

/// The models that answer to a search, whatever its case, in their order.
pub fn filter_models(models: &Vec<DiscoveredModel>, search: &str) -> (r: Vec<DiscoveredModel>)
    ensures
        r.deep_view() == models.deep_view().filter(is_found_by(search@)),
{
    let needle = to_lowercase(search);
    let ghost all = models.deep_view();
    let ghost p = is_found_by(search@);
    let mut out: Vec<DiscoveredModel> = Vec::new();
    let mut i: usize = 0;
    proof {
        reveal(Seq::filter);
        assert(all.take(0) =~= Seq::empty());
        assert(out.deep_view() =~= Seq::empty());
    }
    while i < models.len()
        invariant
            0 <= i <= models.len(),
            all == models.deep_view(),
            p == is_found_by(search@),
            needle@ == lowercase(search@),
            out.deep_view() == all.take(i as int).filter(p),
        decreases models.len() - i,
    {
        let ghost held = out.deep_view();
        proof {
            reveal(Seq::filter);
            assert(all.take(i as int + 1).drop_last() =~= all.take(i as int));
            assert(all.take(i as int + 1).last() == all[i as int]);
        }
        let m = &models[i];
        if needle.as_str().is_empty() || contains(
            to_lowercase(m.id.as_str()).as_str(),
            needle.as_str(),
        ) || contains(to_lowercase(m.name.as_str()).as_str(), needle.as_str()) {
            out.push(DiscoveredModel { id: m.id.clone(), name: m.name.clone() });
            assert(out.deep_view() =~= held.push(all[i as int]));
        }
        i = i + 1;
    }
    assert(all.take(models.len() as int) =~= all);
    out
}

/// Whether a fence of three backticks begins at the place `i`.
pub open spec fn is_fence_at(s: Seq<char>, i: int) -> bool {
    0 <= i && i + 3 <= s.len() && s[i] == '`' && s[i + 1] == '`' && s[i + 2] == '`'
}

/// A fence of three backticks.
pub open spec fn fence() -> Seq<char> {
    seq!['`', '`', '`']
}

/// The text from the place `i` on, with a line break put before each fence
/// that does not begin a line. Fences are found from the left and do not
/// overlap.
pub open spec fn fenced_from(s: Seq<char>, i: int) -> Seq<char>
    decreases s.len() - i,
{
    if i < 0 || i >= s.len() {
        Seq::empty()
    } else if is_fence_at(s, i) {
        (if i == 0 || s[i - 1] == '\n' {
            Seq::<char>::empty()
        } else {
            seq!['\n']
        }) + fence() + fenced_from(s, i + 3)
    } else {
        seq![s[i]] + fenced_from(s, i + 1)
    }
}

/// Puts every code fence of a text at the start of a line, so that a fence
/// that follows text on its line still opens or closes a block.
pub fn normalize_code_fences(input: &str) -> (r: String)
    ensures
        r@ == fenced_from(input@, 0),
{
    let chars = chars_of(input);
    let n = chars.len();
    let mut out: Vec<char> = Vec::new();
    let mut i: usize = 0;
    assert(out@ + fenced_from(chars@, 0) =~= fenced_from(chars@, 0));
    while i < n
        invariant
            0 <= i <= n,
            n == chars.len(),
            out@ + fenced_from(chars@, i as int) == fenced_from(chars@, 0),
        decreases n - i,
    {
        let ghost held = out@;
        if n - i >= 3 && chars[i] == '`' && chars[i + 1] == '`' && chars[i + 2] == '`' {
            if i > 0 && chars[i - 1] != '\n' {
                out.push('\n');
            }
            out.push('`');
            out.push('`');
            out.push('`');
            assert(out@ + fenced_from(chars@, i as int + 3) =~= held + fenced_from(chars@, i as int));
            i = i + 3;
        } else {
            out.push(chars[i]);
            assert(out@ + fenced_from(chars@, i as int + 1) =~= held + fenced_from(chars@, i as int));
            i = i + 1;
        }
    }
    assert(out@ + fenced_from(chars@, n as int) =~= out@);
    text_of(&out)
}

/// The value of a hexadecimal digit.
pub open spec fn hex_value(c: char) -> Option<u8> {
    let n = c as u32;
    if 48 <= n <= 57 {
        Some((n - 48) as u8)
    } else if 97 <= n <= 102 {
        Some((n - 87) as u8)
    } else if 65 <= n <= 70 {
        Some((n - 55) as u8)
    } else {
        None
    }
}

/// The number that two characters write in hexadecimal: two digits, or a
/// plus sign and one digit.
pub open spec fn hex_pair(a: char, b: char) -> Option<u8> {
    if a == '+' {
        hex_value(b)
    } else if hex_value(a) is Some && hex_value(b) is Some {
        Some((hex_value(a)->0 * 16 + hex_value(b)->0) as u8)
    } else {
        None
    }
}

/// A colour's text after its `#`, where it begins with one.
pub open spec fn after_hash(s: Seq<char>) -> Seq<char> {
    if s.len() > 0 && s[0] == '#' {
        s.skip(1)
    } else {
        s
    }
}

/// The colour that a text of the form `#rrggbb` names, as red, green and
/// blue; none for a text of another form.
pub open spec fn color_of(s: Seq<char>) -> Option<(u8, u8, u8)> {
    let d = after_hash(s);
    if d.len() == 6 && hex_pair(d[0], d[1]) is Some && hex_pair(d[2], d[3]) is Some && hex_pair(
        d[4],
        d[5],
    ) is Some {
        Some((hex_pair(d[0], d[1])->0, hex_pair(d[2], d[3])->0, hex_pair(d[4], d[5])->0))
    } else {
        None
    }
}

/// The value of a hexadecimal digit.
pub fn hex_digit(c: char) -> (r: Option<u8>)
    ensures
        r == hex_value(c),
{
    let n = c as u32;
    if 48 <= n && n <= 57 {
        Some((n - 48) as u8)
    } else if 97 <= n && n <= 102 {
        Some((n - 87) as u8)
    } else if 65 <= n && n <= 70 {
        Some((n - 55) as u8)
    } else {
        None
    }
}

/// The number that two characters write in hexadecimal.
pub fn hex_byte(a: char, b: char) -> (r: Option<u8>)
    ensures
        r == hex_pair(a, b),
{
    if a == '+' {
        return hex_digit(b);
    }
    match (hex_digit(a), hex_digit(b)) {
        (Some(high), Some(low)) => Some(high * 16 + low),
        _ => None,
    }
}

/// The colour of an agent, from the text that names it.
pub fn agent_color(hex: &str) -> (r: Option<(u8, u8, u8)>)
    ensures
        r == color_of(hex@),
{
    let chars = chars_of(hex);
    let start: usize = if chars.len() > 0 && chars[0] == '#' {
        1
    } else {
        0
    };
    if chars.len() - start != 6 {
        return None;
    }
    let ghost d = after_hash(hex@);
    assert(forall|k: int| 0 <= k < 6 ==> d[k] == chars@[start + k]);
    let red = hex_byte(chars[start], chars[start + 1])?;
    let green = hex_byte(chars[start + 2], chars[start + 3])?;
    let blue = hex_byte(chars[start + 4], chars[start + 5])?;
    Some((red, green, blue))
}

/// The condition "this conversation is not the one with the id `id`".
pub open spec fn is_other_than(id: Seq<char>) -> spec_fn(Seq<char>) -> bool {
    |other: Seq<char>| other != id
}

/// The ids of the conversations, in order.
pub open spec fn ids_of_sessions(sessions: Seq<SessionInfo>) -> Seq<Seq<char>> {
    sessions.map_values(|s: SessionInfo| s.id@)
}

/// The conversations that "delete all other sessions" deletes: all but the
/// one with the id `current`.
pub fn sessions_to_delete(sessions: &Vec<SessionInfo>, current: &str) -> (r: Vec<String>)
    ensures
        r.deep_view() == ids_of_sessions(sessions@).filter(is_other_than(current@)),
{
    let ghost all = ids_of_sessions(sessions@);
    let ghost p = is_other_than(current@);
    let mut out: Vec<String> = Vec::new();
    let mut i: usize = 0;
    proof {
        reveal(Seq::filter);
        assert(all.take(0) =~= Seq::empty());
        assert(out.deep_view() =~= Seq::empty());
    }
    while i < sessions.len()
        invariant
            0 <= i <= sessions.len(),
            all == ids_of_sessions(sessions@),
            p == is_other_than(current@),
            out.deep_view() == all.take(i as int).filter(p),
        decreases sessions.len() - i,
    {
        let ghost held = out.deep_view();
        proof {
            reveal(Seq::filter);
            assert(all.take(i as int + 1).drop_last() =~= all.take(i as int));
            assert(all.take(i as int + 1).last() == sessions@[i as int].id@);
        }
        if !same(sessions[i].id.as_str(), current) {
            out.push(sessions[i].id.clone());
            assert(out.deep_view() =~= held.push(all[i as int]));
        }
        i = i + 1;
    }
    assert(all.take(sessions.len() as int) =~= all);
    out
}

/// The mark of a model that runs on a subscription.
pub open spec fn subscription_mark() -> Seq<char> {
    "\u{1f7e2} "@
}

/// The name under which a chosen model is shown: its name on the short
/// list, else its provider and id; marked where it is Anthropic's and
/// Anthropic is connected by subscription.
pub open spec fn chosen_label(
    provider: Seq<char>,
    model_id: Seq<char>,
    curated: Seq<CuratedModelView>,
    connected: Seq<Seq<char>>,
) -> Seq<char> {
    let i = first_index(curated, is_model(provider, model_id));
    let name = if i < curated.len() {
        curated[i].name
    } else {
        provider + "/"@ + model_id
    };
    if connected.contains(provider) && provider == "anthropic"@ {
        subscription_mark() + name + " (Subscription)"@
    } else {
        name
    }
}

/// What is shown where no model is chosen: under a subscription to
/// Anthropic the model that the subscription defaults to, by the name given
/// for it, or the subscription alone; else how far the hand-over of the keys
/// has come.
pub open spec fn default_label(
    connected: Seq<Seq<char>>,
    subscription_default: Option<Seq<char>>,
    status: AuthSyncStatusView,
) -> Seq<char> {
    if connected.contains("anthropic"@) {
        match subscription_default {
            Some(name) => subscription_mark() + name + " (Subscription)"@,
            None => subscription_mark() + "(Anthropic Subscription)"@,
        }
    } else {
        match status {
            AuthSyncStatusView::InProgress => "\u{23f3}"@,
            AuthSyncStatusView::Complete => "(default)"@,
            AuthSyncStatusView::Failed(_) => "\u{274c}"@,
            AuthSyncStatusView::NotStarted => "..."@,
        }
    }
}

/// What the model selector shows for a tab.
pub open spec fn label_of(
    selected: Option<(Seq<char>, Seq<char>)>,
    curated: Seq<CuratedModelView>,
    connected: Seq<Seq<char>>,
    subscription_default: Option<Seq<char>>,
    status: AuthSyncStatusView,
) -> Seq<char> {
    match selected {
        Some((provider, model_id)) => chosen_label(provider, model_id, curated, connected),
        None => default_label(connected, subscription_default, status),
    }
}

/// The name of a model on the short list, by provider and id.
pub fn curated_name(curated: &[CuratedModel], provider: &str, model_id: &str) -> (r: Option<String>)
    ensures
        r.deep_view() == ({
            let i = first_index(curated.deep_view(), is_model(provider@, model_id@));
            if i < curated.len() {
                Some(curated.deep_view()[i].name)
            } else {
                None
            }
        }),
{
    let ghost all = curated.deep_view();
    let ghost p = is_model(provider@, model_id@);
    let mut i: usize = 0;
    while i < curated.len()
        invariant
            0 <= i <= curated.len(),
            all == curated.deep_view(),
            p == is_model(provider@, model_id@),
            forall|j: int| 0 <= j < i ==> !p(#[trigger] all[j]),
        decreases curated.len() - i,
    {
        if same(curated[i].provider.as_str(), provider) && same(
            curated[i].model_id.as_str(),
            model_id,
        ) {
            proof {
                assert(p(all[i as int]));
                lemma_first_index_is(all, p, i as int);
            }
            return Some(curated[i].name.clone());
        }
        assert(!p(all[i as int]));
        i = i + 1;
    }
    proof {
        lemma_first_index_is(all, p, i as int);
    }
    None
}

/// What the model selector shows for a tab.
pub fn model_label(
    selected: &Option<(String, String)>,
    curated: &[CuratedModel],
    connected: &Vec<String>,
    subscription_default: Option<String>,
    status: &AuthSyncStatus,
) -> (r: String)
    ensures
        r@ == label_of(
            selected.deep_view(),
            curated.deep_view(),
            connected.deep_view(),
            subscription_default.deep_view(),
            status@,
        ),
{
    match selected {
        Some((provider, model_id)) => {
            let name = match curated_name(curated, provider.as_str(), model_id.as_str()) {
                Some(name) => name,
                None => {
                    let mut out = provider.clone();
                    out.append("/");
                    out.append(model_id.as_str());
                    out
                },
            };
            if contains_text(connected, provider.as_str()) && same(provider.as_str(), "anthropic") {
                let mut out = "\u{1f7e2} ".to_string();
                out.append(name.as_str());
                out.append(" (Subscription)");
                out
            } else {
                name
            }
        },
        None => {
            if contains_text(connected, "anthropic") {
                match subscription_default {
                    Some(name) => {
                        let mut out = "\u{1f7e2} ".to_string();
                        out.append(name.as_str());
                        out.append(" (Subscription)");
                        out
                    },
                    None => "\u{1f7e2} ".to_string().concat("(Anthropic Subscription)"),
                }
            } else {
                match status {
                    AuthSyncStatus::InProgress => "\u{23f3}".to_string(),
                    AuthSyncStatus::Complete => "(default)".to_string(),
                    AuthSyncStatus::Failed(_) => "\u{274c}".to_string(),
                    AuthSyncStatus::NotStarted => "...".to_string(),
                }
            }
        },
    }
}

/// The name that the catalogue gives the model `model_id` of the provider
/// under the key `provider`; the id itself where the catalogue does not
/// list the model.
pub fn catalogue_name(
    catalogue: &Vec<(String, ModelsDevProvider)>,
    provider: &str,
    model_id: &str,
) -> (r: String)
    ensures
        r@ == ({
            let at = first_index(catalogue@, crate::models_dev::is_under(provider@));
            if at < catalogue.len() {
                let models = catalogue@[at].1.models@;
                let k = first_index(models, is_keyed(model_id@));
                if k < models.len() {
                    models[k].1.name@
                } else {
                    model_id@
                }
            } else {
                model_id@
            }
        }),
{
    let at = crate::models_dev::find_provider(catalogue, provider);
    if at == catalogue.len() {
        return model_id.to_string();
    }
    let models = &catalogue[at].1.models;
    let ghost p = is_keyed(model_id@);
    let mut k: usize = 0;
    while k < models.len()
        invariant
            0 <= k <= models.len(),
            p == is_keyed(model_id@),
            at == first_index(catalogue@, crate::models_dev::is_under(provider@)),
            at < catalogue.len(),
            *models == catalogue@[at as int].1.models,
            forall|j: int| 0 <= j < k ==> !p(#[trigger] models@[j]),
        decreases models.len() - k,
    {
        if same(models[k].0.as_str(), model_id) {
            proof {
                assert(p(models@[k as int]));
                lemma_first_index_is(models@, p, k as int);
            }
            return models[k].1.name.clone();
        }
        assert(!p(models@[k as int]));
        k = k + 1;
    }
    proof {
        lemma_first_index_is(models@, p, k as int);
    }
    model_id.to_string()
}

/// The condition "this model of the catalogue stands under the key `key`".
pub open spec fn is_keyed(key: Seq<char>) -> spec_fn(
    (String, crate::models_dev::ModelsDevModel),
) -> bool {
    |entry: (String, crate::models_dev::ModelsDevModel)| entry.0@ == key
}

} // verus!
