use vstd::prelude::*;

use crate::json::{json_parse, parse_json, Json};
use crate::text::{chars_of, has_prefix, same_chars, starts_with_chars, string_of};

verus! {

/// The incremental content that one event carries.
#[derive(Debug)]
pub struct Delta {
    pub content: Option<String>,
}

/// One choice of an event.
#[derive(Debug)]
pub struct Choice {
    pub delta: Option<Delta>,
}

/// One decoded `data: ` event.
#[derive(Debug)]
pub struct StreamEvent {
    pub object: String,
    pub choices: Vec<Choice>,
}

/// What a delta holds: its content, if any.
pub type DeltaView = Option<Seq<char>>;

/// What a choice holds: its delta, if any.
pub type ChoiceView = Option<DeltaView>;

/// What an event holds: its kind and its choices.
pub type EventView = (Seq<char>, Seq<ChoiceView>);

/// The characters of an optional string.
pub open spec fn text_view(s: Option<String>) -> Option<Seq<char>> {
    match s {
        Some(t) => Some(t@),
        None => None,
    }
}

impl View for Delta {
    type V = DeltaView;

    open spec fn view(&self) -> DeltaView {
        text_view(self.content)
    }
}

impl View for Choice {
    type V = ChoiceView;

    open spec fn view(&self) -> ChoiceView {
        match self.delta {
            Some(d) => Some(d@),
            None => None,
        }
    }
}

impl View for StreamEvent {
    type V = EventView;

    open spec fn view(&self) -> EventView {
        (self.object@, self.choices@.map_values(|c: Choice| c@))
    }
}

/// The value of the first member of an object named `key`.
pub open spec fn member(fields: Seq<(String, Json)>, key: Seq<char>) -> Option<Json>
    decreases fields.len(),
{
    if fields.len() == 0 {
        None
    } else if fields[0].0@ == key {
        Some(fields[0].1)
    } else {
        member(fields.drop_first(), key)
    }
}

/// A member that may be absent or null, else must be a string: `None` where
/// it is neither.
pub open spec fn optional_text(v: Option<Json>) -> Option<Option<Seq<char>>> {
    match v {
        None => Some(None),
        Some(Json::Null) => Some(None),
        Some(Json::Str(s)) => Some(Some(s@)),
        _ => None,
    }
}

/// A delta member: absent or null, or an object whose `content` is an
/// optional string. `None` where it is none of these.
pub open spec fn delta_model(v: Option<Json>) -> Option<ChoiceView> {
    match v {
        None => Some(None),
        Some(Json::Null) => Some(None),
        Some(Json::Object(f)) => match optional_text(member(f@, "content"@)) {
            Some(c) => Some(Some(c)),
            None => None,
        },
        _ => None,
    }
}

/// A choice: an object whose `delta` member is a delta.
pub open spec fn choice_model(j: Json) -> Option<ChoiceView> {
    match j {
        Json::Object(f) => delta_model(member(f@, "delta"@)),
        _ => None,
    }
}

/// A list of choices: each item must be a choice.
pub open spec fn choices_model(items: Seq<Json>) -> Option<Seq<ChoiceView>>
    decreases items.len(),
{
    if items.len() == 0 {
        Some(Seq::empty())
    } else {
        match (choices_model(items.drop_last()), choice_model(items.last())) {
            (Some(cs), Some(c)) => Some(cs.push(c)),
            _ => None,
        }
    }
}

/// An event: an object with a string `object` and a list `choices` of choices.
pub open spec fn event_model(j: Json) -> Option<EventView> {
    match j {
        Json::Object(f) => match (member(f@, "object"@), member(f@, "choices"@)) {
            (Some(Json::Str(o)), Some(Json::Array(items))) => match choices_model(items@) {
                Some(cs) => Some((o@, cs)),
                None => None,
            },
            _ => None,
        },
        _ => None,
    }
}

/// The content that an event yields: only an event of the content-delta kind
/// does, through the delta of its first choice.
pub open spec fn event_fragment(e: EventView) -> Option<Seq<char>> {
    if e.0 == "chat.completion.chunk"@ && e.1.len() > 0 {
        match e.1[0] {
            Some(Some(c)) => Some(c),
            _ => None,
        }
    } else {
        None
    }
}

/// The content that one line of the event stream yields.
pub open spec fn line_fragment(line: Seq<char>) -> Option<Seq<char>> {
    if line.len() == 0 || line[0] == ':' {
        None
    } else if has_prefix(line, "data: "@) {
        match json_parse(line.skip(6)) {
            Some(j) => match event_model(j) {
                Some(e) => event_fragment(e),
                None => None,
            },
            None => None,
        }
    } else {
        None
    }
}

/// The value behind an optional reference.
pub open spec fn owned(v: Option<&Json>) -> Option<Json> {
    match v {
        Some(j) => Some(*j),
        None => None,
    }
}

/// The value of the first member of `fields` named `key`.
fn find_member<'a>(fields: &'a Vec<(String, Json)>, key: &str) -> (r: Option<&'a Json>)
    ensures
        match r {
            Some(v) => member(fields@, key@) == Some(*v),
            None => member(fields@, key@) is None,
        },
{
    let k = chars_of(key);
    let mut i: usize = 0;
    assert(fields@.skip(0) == fields@);
    while i < fields.len()
        invariant
            0 <= i <= fields@.len(),
            k@ == key@,
            member(fields@, key@) == member(fields@.skip(i as int), key@),
        decreases fields@.len() - i,
    {
        let name = chars_of(fields[i].0.as_str());
        assert(fields@.skip(i as int)[0] == fields@[i as int]);
        if same_chars(name.as_slice(), k.as_slice()) {
            return Some(&fields[i].1);
        }
        assert(fields@.skip(i as int).drop_first() == fields@.skip(i + 1));
        i = i + 1;
    }
    None
}

/// Reads a member that may be absent or null, else must be a string.
fn read_optional_text(v: Option<&Json>) -> (r: Option<Option<String>>)
    ensures
        match r {
            Some(t) => optional_text(owned(v)) == Some(text_view(t)),
            None => optional_text(owned(v)) is None,
        },
{
    match v {
        None => Some(None),
        Some(Json::Null) => Some(None),
        Some(Json::Str(s)) => Some(Some(s.clone())),
        _ => None,
    }
}

/// Reads a delta member.
fn read_delta(v: Option<&Json>) -> (r: Option<Option<Delta>>)
    ensures
        match r {
            Some(d) => delta_model(owned(v)) == Some(
                match d {
                    Some(x) => Some(x@),
                    None => None,
                },
            ),
            None => delta_model(owned(v)) is None,
        },
{
    match v {
        None => Some(None),
        Some(Json::Null) => Some(None),
        Some(Json::Object(f)) => match read_optional_text(find_member(f, "content")) {
            Some(c) => Some(Some(Delta { content: c })),
            None => None,
        },
        _ => None,
    }
}

/// Reads a choice.
fn read_choice(j: &Json) -> (r: Option<Choice>)
    ensures
        match r {
            Some(c) => choice_model(*j) == Some(c@),
            None => choice_model(*j) is None,
        },
{
    match j {
        Json::Object(f) => match read_delta(find_member(f, "delta")) {
            Some(d) => Some(Choice { delta: d }),
            None => None,
        },
        _ => None,
    }
}

/// Reads a list of choices.
fn read_choices(items: &Vec<Json>) -> (r: Option<Vec<Choice>>)
    ensures
        match r {
            Some(cs) => choices_model(items@) == Some(cs@.map_values(|c: Choice| c@)),
            None => choices_model(items@) is None,
        },
{
    let mut out: Vec<Choice> = Vec::new();
    let mut i: usize = 0;
    while i < items.len()
        invariant
            0 <= i <= items@.len(),
            choices_model(items@.take(i as int)) == Some(out@.map_values(|c: Choice| c@)),
        decreases items@.len() - i,
    {
        assert(items@.take(i + 1).drop_last() == items@.take(i as int));
        assert(items@.take(i + 1).last() == items@[i as int]);
        match read_choice(&items[i]) {
            Some(c) => {
                let ghost before = out@;
                out.push(c);
                assert(out@.map_values(|c: Choice| c@) == before.map_values(|c: Choice| c@).push(
                    c@,
                ));
            },
            None => {
                proof {
                    lemma_choices_invalid_prefix(items@, i as int + 1);
                }
                return None;
            },
        }
        i = i + 1;
    }
    assert(items@.take(i as int) == items@);
    Some(out)
}

/// A list whose first `n` items are no list of choices is none either.
proof fn lemma_choices_invalid_prefix(items: Seq<Json>, n: int)
    requires
        0 <= n <= items.len(),
        choices_model(items.take(n)) is None,
    ensures
        choices_model(items) is None,
    decreases items.len() - n,
{
    if n < items.len() {
        assert(items.take(n + 1).drop_last() == items.take(n));
        lemma_choices_invalid_prefix(items, n + 1);
    } else {
        assert(items.take(n) == items);
    }
}

/// Reads an event from a JSON value: `None` where the value has not the
/// shape of an event.
pub fn event_from_json(j: &Json) -> (r: Option<StreamEvent>)
    ensures
        match r {
            Some(e) => event_model(*j) == Some(e@),
            None => event_model(*j) is None,
        },
{
    match j {
        Json::Object(f) => {
            let o = find_member(f, "object");
            let c = find_member(f, "choices");
            match (o, c) {
                (Some(Json::Str(object)), Some(Json::Array(items))) => match read_choices(items) {
                    Some(choices) => Some(StreamEvent { object: object.clone(), choices }),
                    None => None,
                },
                _ => None,
            }
        },
        _ => None,
    }
}

impl StreamEvent {
    /// The content that this event yields.
    pub fn content(&self) -> (r: Option<String>)
        ensures
            text_view(r) == event_fragment(self@),
    {
        let kind = chars_of(self.object.as_str());
        let chunk = chars_of("chat.completion.chunk");
        if !same_chars(kind.as_slice(), chunk.as_slice()) || self.choices.len() == 0 {
            return None;
        }
        let first = &self.choices[0];
        assert(self@.1[0] == first@);
        match &first.delta {
            Some(d) => match &d.content {
                Some(c) => Some(c.clone()),
                None => None,
            },
            None => None,
        }
    }
}

/// The content that the payload of a `data: ` line yields, given what was
/// parsed from it.
pub fn payload_fragment(parsed: &Option<Json>) -> (r: Option<String>)
    ensures
        text_view(r) == match *parsed {
            Some(j) => match event_model(j) {
                Some(e) => event_fragment(e),
                None => None,
            },
            None => None,
        },
{
    match parsed {
        Some(j) => match event_from_json(j) {
            Some(e) => e.content(),
            None => None,
        },
        None => None,
    }
}

/// Applies the line rule to the characters of one line.
pub fn line_chars_fragment(line: &[char]) -> (r: Option<String>)
    ensures
        text_view(r) == line_fragment(line@),
{
    if line.len() == 0 || line[0] == ':' {
        return None;
    }
    let prefix = chars_of("data: ");
    proof {
        reveal_strlit("data: ");
    }
    if starts_with_chars(line, prefix.as_slice()) {
        let mut rest: Vec<char> = Vec::new();
        let mut i: usize = 6;
        while i < line.len()
            invariant
                6 <= i <= line@.len(),
                rest@ == line@.subrange(6, i as int),
            decreases line@.len() - i,
        {
            rest.push(line[i]);
            i = i + 1;
        }
        assert(rest@ == line@.skip(6));
        let payload = string_of(rest.as_slice());
        payload_fragment(&parse_json(payload.as_str()))
    } else {
        None
    }
}

} // verus!
