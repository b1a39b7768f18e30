//! The wire schema: how a payload text stands for an [`Action`], and how a
//! [`Response`] is written out.
//!
//! A payload is one JSON value. An action without fields is its variant name
//! as a string, or an object with that name as its only key and `null` under
//! it. An action with fields is an object with the variant name as its only key
//! and, under it, an object that holds exactly the variant's fields. Anything
//! else is refused: nothing is guessed and nothing is skipped.

use vstd::prelude::*;
use crate::action::{Action, ActionView, Response, ResponseView};
use crate::model::{option_view, result_view, texts};
use crate::json::{
    Json, Tree, find, has_key, is_first, lemma_first_is_member, lemma_view_of_object, member,
    members_view, parse, parsed, quote, quoted, same_text,
};

verus! {

/// Why a payload was refused.
#[derive(Debug, Clone, PartialEq, Eq)]
pub enum DecodeCause {
    /// The text is not JSON; the parser's message says why.
    Syntax(String),
    /// The value is neither a string nor an object with a single member.
    Shape,
    /// No variant has this name.
    UnknownTag,
    /// A member names no field of the variant.
    UnknownField,
    /// A field of the variant is not there.
    MissingField,
    /// A field is there more than once.
    DuplicateField,
    /// A value, or the content of the variant, is of the wrong type or out
    /// of range.
    WrongType,
}

/// The mathematical model of a [`DecodeCause`].
pub ghost enum DecodeCauseView {
    Syntax(Seq<char>),
    Shape,
    UnknownTag,
    UnknownField,
    MissingField,
    DuplicateField,
    WrongType,
}

impl View for DecodeCause {
    type V = DecodeCauseView;

    open spec fn view(&self) -> DecodeCauseView {
        match *self {
            DecodeCause::Syntax(message) => DecodeCauseView::Syntax(message@),
            DecodeCause::Shape => DecodeCauseView::Shape,
            DecodeCause::UnknownTag => DecodeCauseView::UnknownTag,
            DecodeCause::UnknownField => DecodeCauseView::UnknownField,
            DecodeCause::MissingField => DecodeCauseView::MissingField,
            DecodeCause::DuplicateField => DecodeCauseView::DuplicateField,
            DecodeCause::WrongType => DecodeCauseView::WrongType,
        }
    }
}

/// A refused payload, with the reason.
#[derive(Debug, Clone, PartialEq, Eq)]
pub struct DecodeError {
    pub payload: String,
    pub cause: DecodeCause,
}

/// The mathematical model of a [`DecodeError`].
pub ghost struct DecodeErrorView {
    pub payload: Seq<char>,
    pub cause: DecodeCauseView,
}

impl View for DecodeError {
    type V = DecodeErrorView;

    open spec fn view(&self) -> DecodeErrorView {
        DecodeErrorView { payload: self.payload@, cause: self.cause@ }
    }
}

/// The texts of a list of field names.
pub open spec fn name_texts(names: Seq<&str>) -> Seq<Seq<char>> {
    Seq::new(names.len(), |k: int| names[k]@)
}

/// Whether some member's key is none of the names.
pub open spec fn unknown_member(members: Seq<(Seq<char>, Tree)>, names: Seq<Seq<char>>) -> bool {
    exists|i: int| 0 <= i < members.len() && !names.contains((#[trigger] members[i]).0)
}

/// Whether some name is the key of no member.
pub open spec fn missing_name(members: Seq<(Seq<char>, Tree)>, names: Seq<Seq<char>>) -> bool {
    exists|k: int| 0 <= k < names.len() && !has_key(members, #[trigger] names[k])
}

/// What is wrong with the keys of an object that should hold exactly the
/// named fields, each once: an unknown key first, then a missing field, then a
/// repeated one; `None` where the keys are as they should be.
pub open spec fn fields_fault(members: Seq<(Seq<char>, Tree)>, names: Seq<Seq<char>>) -> Option<
    DecodeCauseView,
> {
    if unknown_member(members, names) {
        Some(DecodeCauseView::UnknownField)
    } else if missing_name(members, names) {
        Some(DecodeCauseView::MissingField)
    } else if members.len() != names.len() {
        Some(DecodeCauseView::DuplicateField)
    } else {
        None
    }
}

/// Whether the key is one of the names.
pub fn is_named(names: &Vec<&str>, key: &str) -> (r: bool)
    ensures
        r == name_texts(names@).contains(key@),
{
    let mut k: usize = 0;
    while k < names.len()
        invariant
            k <= names.len(),
            forall|j: int| 0 <= j < k ==> name_texts(names@)[j] != key@,
        decreases names.len() - k,
    {
        if same_text(names[k], key) {
            assert(name_texts(names@)[k as int] == key@);
            return true;
        }
        k += 1;
    }
    false
}

/// Checks that an object holds exactly the named fields, each once.
pub fn check_fields(members: &Vec<(String, Json)>, names: &Vec<&str>) -> (r: Option<DecodeCause>)
    ensures
        option_view(r) == fields_fault(members_view(members@), name_texts(names@)),
{
    let ghost ms = members_view(members@);
    let ghost ns = name_texts(names@);
    let mut i: usize = 0;
    while i < members.len()
        invariant
            i <= members.len(),
            ms == members_view(members@),
            ns == name_texts(names@),
            forall|j: int| 0 <= j < i ==> ns.contains((#[trigger] ms[j]).0),
        decreases members.len() - i,
    {
        if !is_named(names, members[i].0.as_str()) {
            assert(!ns.contains(ms[i as int].0));
            return Some(DecodeCause::UnknownField);
        }
        i += 1;
    }
    assert(!unknown_member(ms, ns));
    let mut k: usize = 0;
    while k < names.len()
        invariant
            k <= names.len(),
            ms == members_view(members@),
            ns == name_texts(names@),
            !unknown_member(ms, ns),
            forall|j: int| 0 <= j < k ==> has_key(ms, #[trigger] ns[j]),
        decreases names.len() - k,
    {
        if find(members, names[k]).is_none() {
            assert(!has_key(ms, ns[k as int]));
            return Some(DecodeCause::MissingField);
        }
        k += 1;
    }
    assert(!missing_name(ms, ns));
    if members.len() != names.len() {
        Some(DecodeCause::DuplicateField)
    } else {
        None
    }
}

/// The text under the single field `value` of a variant's content.
pub open spec fn text_of_fields(content: Tree) -> Result<Seq<char>, DecodeCauseView> {
    match content {
        Tree::Object(members) => match fields_fault(members, seq!["value"@]) {
            Some(cause) => Err(cause),
            None => match member(members, "value"@) {
                Tree::String(text) => Ok(text),
                _ => Err(DecodeCauseView::WrongType),
            },
        },
        _ => Err(DecodeCauseView::WrongType),
    }
}

/// The 32-bit integer that a value stands for, if it stands for one.
pub open spec fn int_of(value: Tree) -> Option<i32> {
    match value {
        Tree::Number(Some(n)) => if i32::MIN <= n <= i32::MAX {
            Some(n as i32)
        } else {
            None
        },
        _ => None,
    }
}

/// The integers under the two fields `x` and `y` of a variant's content.
pub open spec fn offsets_of_fields(content: Tree) -> Result<(i32, i32), DecodeCauseView> {
    match content {
        Tree::Object(members) => match fields_fault(members, seq!["x"@, "y"@]) {
            Some(cause) => Err(cause),
            None => match (int_of(member(members, "x"@)), int_of(member(members, "y"@))) {
                (Some(x), Some(y)) => Ok((x, y)),
                _ => Err(DecodeCauseView::WrongType),
            },
        },
        _ => Err(DecodeCauseView::WrongType),
    }
}

/// Reads the content of a variant whose single field `value` is a string.
pub fn read_text(content: &Json) -> (r: Result<String, DecodeCause>)
    ensures
        result_view(r) == text_of_fields(content@),
{
    match content {
        Json::Object(members) => {
            let names = vec!["value"];
            proof {
                lemma_view_of_object(*content);
                assert(name_texts(names@) =~= seq!["value"@]);
            }
            match check_fields(members, &names) {
                Some(cause) => Err(cause),
                None => match find(members, "value") {
                    Some(i) => {
                        proof {
                            lemma_first_is_member(members_view(members@), "value"@, i as int);
                        }
                        match &members[i].1 {
                            Json::String(text) => Ok(text.clone()),
                            _ => Err(DecodeCause::WrongType),
                        }
                    },
                    None => {
                        proof {
                            assert(has_key(members_view(members@), name_texts(names@)[0]));
                        }
                        Err(DecodeCause::MissingField)
                    },
                },
            }
        },
        _ => Err(DecodeCause::WrongType),
    }
}

/// Reads a value as a 32-bit integer.
pub fn read_int(value: &Json) -> (r: Option<i32>)
    ensures
        r == int_of(value@),
{
    match value {
        Json::Number(Some(n)) => {
            if -2147483648 <= *n && *n <= 2147483647 {
                Some(*n as i32)
            } else {
                None
            }
        },
        _ => None,
    }
}

/// Reads the content of a variant whose fields `x` and `y` are integers.
pub fn read_offsets(content: &Json) -> (r: Result<(i32, i32), DecodeCause>)
    ensures
        r matches Ok(pair) ==> offsets_of_fields(content@) == Ok::<(i32, i32), DecodeCauseView>(
            pair,
        ),
        r matches Err(cause) ==> offsets_of_fields(content@) == Err::<
            (i32, i32),
            DecodeCauseView,
        >(cause@),
{
    match content {
        Json::Object(members) => {
            let names = vec!["x", "y"];
            proof {
                lemma_view_of_object(*content);
                assert(name_texts(names@) =~= seq!["x"@, "y"@]);
            }
            match check_fields(members, &names) {
                Some(cause) => Err(cause),
                None => {
                    proof {
                        assert(has_key(members_view(members@), name_texts(names@)[0]));
                        assert(has_key(members_view(members@), name_texts(names@)[1]));
                    }
                    match (find(members, "x"), find(members, "y")) {
                        (Some(i), Some(j)) => {
                            proof {
                                lemma_first_is_member(members_view(members@), "x"@, i as int);
                                lemma_first_is_member(members_view(members@), "y"@, j as int);
                            }
                            match (read_int(&members[i].1), read_int(&members[j].1)) {
                                (Some(x), Some(y)) => Ok((x, y)),
                                _ => Err(DecodeCause::WrongType),
                            }
                        },
                        _ => Err(DecodeCause::MissingField),
                    }
                },
            }
        },
        _ => Err(DecodeCause::WrongType),
    }
}

/// The action without fields that a variant name stands for.
pub open spec fn unit_variant(tag: Seq<char>) -> Option<ActionView> {
    if tag == "LeftClick"@ {
        Some(ActionView::LeftClick)
    } else if tag == "MiddleClick"@ {
        Some(ActionView::MiddleClick)
    } else if tag == "RightClick"@ {
        Some(ActionView::RightClick)
    } else if tag == "IncreaseVolume"@ {
        Some(ActionView::IncreaseVolume)
    } else if tag == "DecreaseVolume"@ {
        Some(ActionView::DecreaseVolume)
    } else if tag == "ToggleMuteVolume"@ {
        Some(ActionView::ToggleMuteVolume)
    } else if tag == "GetCapabilities"@ {
        Some(ActionView::GetCapabilities)
    } else {
        None
    }
}

/// A character from a text that must hold exactly one.
pub open spec fn single_char(text: Seq<char>) -> Result<char, DecodeCauseView> {
    if text.len() == 1 {
        Ok(text[0])
    } else {
        Err(DecodeCauseView::WrongType)
    }
}

/// The action that a variant name and the content under it stand for. A
/// variant without fields takes `null`; the others take an object with their
/// fields.
pub open spec fn decoded_variant(tag: Seq<char>, content: Tree) -> Result<
    ActionView,
    DecodeCauseView,
> {
    if unit_variant(tag) is Some {
        if content == Tree::Null {
            Ok(unit_variant(tag)->Some_0)
        } else {
            Err(DecodeCauseView::WrongType)
        }
    } else if tag == "KeyCode"@ {
        match text_of_fields(content) {
            Ok(value) => Ok(ActionView::KeyCode { value }),
            Err(cause) => Err(cause),
        }
    } else if tag == "Compositor"@ {
        match text_of_fields(content) {
            Ok(value) => Ok(ActionView::Compositor { value }),
            Err(cause) => Err(cause),
        }
    } else if tag == "Open"@ {
        match text_of_fields(content) {
            Ok(value) => Ok(ActionView::Open { value }),
            Err(cause) => Err(cause),
        }
    } else if tag == "Unicode"@ {
        match text_of_fields(content) {
            Ok(text) => match single_char(text) {
                Ok(value) => Ok(ActionView::Unicode { value }),
                Err(cause) => Err(cause),
            },
            Err(cause) => Err(cause),
        }
    } else if tag == "MouseMove"@ {
        match offsets_of_fields(content) {
            Ok((x, y)) => Ok(ActionView::MouseMove { x, y }),
            Err(cause) => Err(cause),
        }
    } else if tag == "Scroll"@ {
        match offsets_of_fields(content) {
            Ok((x, y)) => Ok(ActionView::Scroll { x, y }),
            Err(cause) => Err(cause),
        }
    } else if tag == "Drag"@ {
        match offsets_of_fields(content) {
            Ok((x, y)) => Ok(ActionView::Drag { x, y }),
            Err(cause) => Err(cause),
        }
    } else {
        Err(DecodeCauseView::UnknownTag)
    }
}

/// The action that a JSON value stands for: a string is a variant name with
/// nothing under it, an object with one member is a variant name with its
/// content, and nothing else is an action.
pub open spec fn decoded_tree(value: Tree) -> Result<ActionView, DecodeCauseView> {
    match value {
        Tree::String(tag) => decoded_variant(tag, Tree::Null),
        Tree::Object(members) => if members.len() == 1 {
            decoded_variant(members[0].0, members[0].1)
        } else {
            Err(DecodeCauseView::Shape)
        },
        _ => Err(DecodeCauseView::Shape),
    }
}

/// The action that a payload stands for, or the payload with the reason for
/// which it stands for none.
pub open spec fn decoded(payload: Seq<char>) -> Result<ActionView, DecodeErrorView> {
    match parsed(payload) {
        Err(message) => Err(
            DecodeErrorView { payload, cause: DecodeCauseView::Syntax(message) },
        ),
        Ok(value) => match decoded_tree(value) {
            Ok(action) => Ok(action),
            Err(cause) => Err(DecodeErrorView { payload, cause }),
        },
    }
}

/// Makes the action without fields that has this variant name.
pub fn make_unit(tag: &str) -> (r: Option<Action>)
    ensures
        option_view(r) == unit_variant(tag@),
{
    if same_text(tag, "LeftClick") {
        Some(Action::LeftClick)
    } else if same_text(tag, "MiddleClick") {
        Some(Action::MiddleClick)
    } else if same_text(tag, "RightClick") {
        Some(Action::RightClick)
    } else if same_text(tag, "IncreaseVolume") {
        Some(Action::IncreaseVolume)
    } else if same_text(tag, "DecreaseVolume") {
        Some(Action::DecreaseVolume)
    } else if same_text(tag, "ToggleMuteVolume") {
        Some(Action::ToggleMuteVolume)
    } else if same_text(tag, "GetCapabilities") {
        Some(Action::GetCapabilities)
    } else {
        None
    }
}

/// Reads a text that must hold exactly one character.
pub fn read_single_char(text: &str) -> (r: Result<char, DecodeCause>)
    ensures
        r matches Ok(c) ==> single_char(text@) == Ok::<char, DecodeCauseView>(c),
        r matches Err(cause) ==> single_char(text@) == Err::<char, DecodeCauseView>(cause@),
{
    if text.unicode_len() == 1 {
        Ok(text.get_char(0))
    } else {
        Err(DecodeCause::WrongType)
    }
}

/// Decodes a variant name with the content under it.
pub fn decode_variant(tag: &str, content: &Json) -> (r: Result<Action, DecodeCause>)
    ensures
        result_view(r) == decoded_variant(tag@, content@),
{
    if let Some(action) = make_unit(tag) {
        match content {
            Json::Null => Ok(action),
            _ => Err(DecodeCause::WrongType),
        }
    } else if same_text(tag, "KeyCode") {
        match read_text(content) {
            Ok(value) => Ok(Action::KeyCode { value }),
            Err(cause) => Err(cause),
        }
    } else if same_text(tag, "Compositor") {
        match read_text(content) {
            Ok(value) => Ok(Action::Compositor { value }),
            Err(cause) => Err(cause),
        }
    } else if same_text(tag, "Open") {
        match read_text(content) {
            Ok(value) => Ok(Action::Open { value }),
            Err(cause) => Err(cause),
        }
    } else if same_text(tag, "Unicode") {
        match read_text(content) {
            Ok(text) => match read_single_char(text.as_str()) {
                Ok(value) => Ok(Action::Unicode { value }),
                Err(cause) => Err(cause),
            },
            Err(cause) => Err(cause),
        }
    } else if same_text(tag, "MouseMove") {
        match read_offsets(content) {
            Ok((x, y)) => Ok(Action::MouseMove { x, y }),
            Err(cause) => Err(cause),
        }
    } else if same_text(tag, "Scroll") {
        match read_offsets(content) {
            Ok((x, y)) => Ok(Action::Scroll { x, y }),
            Err(cause) => Err(cause),
        }
    } else if same_text(tag, "Drag") {
        match read_offsets(content) {
            Ok((x, y)) => Ok(Action::Drag { x, y }),
            Err(cause) => Err(cause),
        }
    } else {
        Err(DecodeCause::UnknownTag)
    }
}

/// Decodes a parsed payload.
///
/// Succeeds exactly on the values that [`decoded_tree`] gives an action,
/// with that action; every other value is refused with the cause that
/// [`decoded_tree`] names.
pub fn decode_tree(value: &Json) -> (r: Result<Action, DecodeCause>)
    ensures
        result_view(r) == decoded_tree(value@),
{
    match value {
        Json::String(tag) => {
            let nothing = Json::Null;
            decode_variant(tag.as_str(), &nothing)
        },
        Json::Object(members) => {
            proof {
                lemma_view_of_object(*value);
            }
            if members.len() == 1 {
                decode_variant(members[0].0.as_str(), &members[0].1)
            } else {
                Err(DecodeCause::Shape)
            }
        },
        _ => Err(DecodeCause::Shape),
    }
}

/// Decodes a payload text.
///
/// The outcome is [`decoded`] of the text: the action it stands for, or an
/// error that carries the text and the cause.
pub fn decode(payload: &str) -> (r: Result<Action, DecodeError>)
    ensures
        result_view(r) == decoded(payload@),
{
    match parse(payload) {
        Err(message) => Err(
            DecodeError { payload: String::from_str(payload), cause: DecodeCause::Syntax(message) },
        ),
        Ok(value) => match decode_tree(&value) {
            Ok(action) => Ok(action),
            Err(cause) => Err(DecodeError { payload: String::from_str(payload), cause }),
        },
    }
}

/// The content of a variant whose single field `value` holds this text.
pub open spec fn text_content(value: Seq<char>) -> Tree {
    Tree::Object(seq![("value"@, Tree::String(value))])
}

/// The content of a variant whose fields `x` and `y` hold these integers.
pub open spec fn offsets_content(x: i32, y: i32) -> Tree {
    Tree::Object(seq![("x"@, Tree::Number(Some(x as i64))), ("y"@, Tree::Number(Some(y as i64)))])
}

/// An object with the variant name as its only key and the content under it.
pub open spec fn tagged(tag: Seq<char>, content: Tree) -> Tree {
    Tree::Object(seq![(tag, content)])
}

/// The JSON value that stands for an action: the variant name alone where
/// the action has no fields, else the name with the fields under it.
pub open spec fn encoded(action: ActionView) -> Tree {
    match action {
        ActionView::KeyCode { value } => tagged("KeyCode"@, text_content(value)),
        ActionView::Unicode { value } => tagged("Unicode"@, text_content(seq![value])),
        ActionView::MouseMove { x, y } => tagged("MouseMove"@, offsets_content(x, y)),
        ActionView::Scroll { x, y } => tagged("Scroll"@, offsets_content(x, y)),
        ActionView::Drag { x, y } => tagged("Drag"@, offsets_content(x, y)),
        ActionView::LeftClick => Tree::String("LeftClick"@),
        ActionView::MiddleClick => Tree::String("MiddleClick"@),
        ActionView::RightClick => Tree::String("RightClick"@),
        ActionView::Compositor { value } => tagged("Compositor"@, text_content(value)),
        ActionView::Open { value } => tagged("Open"@, text_content(value)),
        ActionView::IncreaseVolume => Tree::String("IncreaseVolume"@),
        ActionView::DecreaseVolume => Tree::String("DecreaseVolume"@),
        ActionView::ToggleMuteVolume => Tree::String("ToggleMuteVolume"@),
        ActionView::GetCapabilities => Tree::String("GetCapabilities"@),
    }
}

/// `String::from` on a `char`: the string that holds that one character.
#[verifier::external_body]
fn char_text(c: char) -> (r: String)
    ensures
        r@ == seq![c],
{
    String::from(c)
}

fn make_text_content(value: String) -> (r: Json)
    ensures
        r@ == text_content(value@),
{
    let mut members: Vec<(String, Json)> = Vec::new();
    members.push((String::from_str("value"), Json::String(value)));
    let r = Json::Object(members);
    proof {
        lemma_view_of_object(r);
        assert(members_view(members@) =~= seq![("value"@, Tree::String(value@))]);
    }
    r
}

fn make_offsets_content(x: i32, y: i32) -> (r: Json)
    ensures
        r@ == offsets_content(x, y),
{
    let mut members: Vec<(String, Json)> = Vec::new();
    members.push((String::from_str("x"), Json::Number(Some(x as i64))));
    members.push((String::from_str("y"), Json::Number(Some(y as i64))));
    let r = Json::Object(members);
    proof {
        lemma_view_of_object(r);
        assert(members_view(members@) =~= seq![
            ("x"@, Tree::Number(Some(x as i64))),
            ("y"@, Tree::Number(Some(y as i64))),
        ]);
    }
    r
}

fn make_tagged(tag: &str, content: Json) -> (r: Json)
    ensures
        r@ == tagged(tag@, content@),
{
    let mut members: Vec<(String, Json)> = Vec::new();
    members.push((String::from_str(tag), content));
    let r = Json::Object(members);
    proof {
        lemma_view_of_object(r);
        assert(members_view(members@) =~= seq![(tag@, content@)]);
    }
    r
}

/// Writes an action as the JSON value that stands for it.
pub fn encode_action(action: &Action) -> (r: Json)
    ensures
        r@ == encoded(action@),
{
    match action {
        Action::KeyCode { value } => make_tagged("KeyCode", make_text_content(value.clone())),
        Action::Unicode { value } => make_tagged("Unicode", make_text_content(char_text(*value))),
        Action::MouseMove { x, y } => make_tagged("MouseMove", make_offsets_content(*x, *y)),
        Action::Scroll { x, y } => make_tagged("Scroll", make_offsets_content(*x, *y)),
        Action::Drag { x, y } => make_tagged("Drag", make_offsets_content(*x, *y)),
        Action::LeftClick => Json::String(String::from_str("LeftClick")),
        Action::MiddleClick => Json::String(String::from_str("MiddleClick")),
        Action::RightClick => Json::String(String::from_str("RightClick")),
        Action::Compositor { value } => make_tagged(
            "Compositor",
            make_text_content(value.clone()),
        ),
        Action::Open { value } => make_tagged("Open", make_text_content(value.clone())),
        Action::IncreaseVolume => Json::String(String::from_str("IncreaseVolume")),
        Action::DecreaseVolume => Json::String(String::from_str("DecreaseVolume")),
        Action::ToggleMuteVolume => Json::String(String::from_str("ToggleMuteVolume")),
        Action::GetCapabilities => Json::String(String::from_str("GetCapabilities")),
    }
}

/// The content written for a text field reads back as that text.
pub proof fn lemma_text_content_reads_back(value: Seq<char>)
    ensures
        text_of_fields(text_content(value)) == Ok::<Seq<char>, DecodeCauseView>(value),
{
    let members = seq![("value"@, Tree::String(value))];
    let names = seq!["value"@];
    assert(names[0] == "value"@);
    assert(members[0].0 == "value"@);
    assert(is_first(members, "value"@, 0));
    lemma_first_is_member(members, "value"@, 0);
    assert(!unknown_member(members, names));
    assert(!missing_name(members, names));
}

/// The content written for two offsets reads back as those offsets.
pub proof fn lemma_offsets_content_reads_back(x: i32, y: i32)
    ensures
        offsets_of_fields(offsets_content(x, y)) == Ok::<(i32, i32), DecodeCauseView>((x, y)),
{
    reveal_strlit("x");
    reveal_strlit("y");
    let members = seq![("x"@, Tree::Number(Some(x as i64))), ("y"@, Tree::Number(Some(y as i64)))];
    let names = seq!["x"@, "y"@];
    assert("x"@ != "y"@) by {
        assert("x"@[0] != "y"@[0]);
    }
    assert(names[0] == "x"@ && names[1] == "y"@);
    assert(members[0].0 == "x"@ && members[1].0 == "y"@);
    assert(is_first(members, "x"@, 0));
    assert(is_first(members, "y"@, 1));
    lemma_first_is_member(members, "x"@, 0);
    lemma_first_is_member(members, "y"@, 1);
    assert(!unknown_member(members, names));
    assert(!missing_name(members, names));
}

/// The length and the first character of each variant name: enough to tell
/// any two of them apart.
pub proof fn lemma_variant_names()
    ensures
        "KeyCode"@.len() == 7,
        "KeyCode"@[0] == 'K',
        "Unicode"@.len() == 7,
        "Unicode"@[0] == 'U',
        "MouseMove"@.len() == 9,
        "MouseMove"@[0] == 'M',
        "Scroll"@.len() == 6,
        "Scroll"@[0] == 'S',
        "Drag"@.len() == 4,
        "Drag"@[0] == 'D',
        "LeftClick"@.len() == 9,
        "LeftClick"@[0] == 'L',
        "MiddleClick"@.len() == 11,
        "MiddleClick"@[0] == 'M',
        "RightClick"@.len() == 10,
        "RightClick"@[0] == 'R',
        "Compositor"@.len() == 10,
        "Compositor"@[0] == 'C',
        "Open"@.len() == 4,
        "Open"@[0] == 'O',
        "IncreaseVolume"@.len() == 14,
        "IncreaseVolume"@[0] == 'I',
        "DecreaseVolume"@.len() == 14,
        "DecreaseVolume"@[0] == 'D',
        "ToggleMuteVolume"@.len() == 16,
        "ToggleMuteVolume"@[0] == 'T',
        "GetCapabilities"@.len() == 15,
        "GetCapabilities"@[0] == 'G',
{
    reveal_strlit("KeyCode");
    reveal_strlit("Unicode");
    reveal_strlit("MouseMove");
    reveal_strlit("Scroll");
    reveal_strlit("Drag");
    reveal_strlit("LeftClick");
    reveal_strlit("MiddleClick");
    reveal_strlit("RightClick");
    reveal_strlit("Compositor");
    reveal_strlit("Open");
    reveal_strlit("IncreaseVolume");
    reveal_strlit("DecreaseVolume");
    reveal_strlit("ToggleMuteVolume");
    reveal_strlit("GetCapabilities");
}

/// Decoding undoes encoding: the JSON value that stands for an action decodes
/// to that action, whatever the action.
pub proof fn lemma_decode_inverts_encode(action: ActionView)
    ensures
        decoded_tree(encoded(action)) == Ok::<ActionView, DecodeCauseView>(action),
{
    lemma_variant_names();
    match action {
        ActionView::KeyCode { value } => {
            lemma_text_content_reads_back(value);
        },
        ActionView::Unicode { value } => {
            lemma_text_content_reads_back(seq![value]);
        },
        ActionView::Compositor { value } => {
            lemma_text_content_reads_back(value);
        },
        ActionView::Open { value } => {
            lemma_text_content_reads_back(value);
        },
        ActionView::MouseMove { x, y } => {
            lemma_offsets_content_reads_back(x, y);
        },
        ActionView::Scroll { x, y } => {
            lemma_offsets_content_reads_back(x, y);
        },
        ActionView::Drag { x, y } => {
            lemma_offsets_content_reads_back(x, y);
        },
        _ => {},
    }
}

/// A payload that the parser reads as the JSON value of an action decodes to
/// exactly that action.
pub proof fn lemma_payload_of_action_decodes(payload: Seq<char>, action: ActionView)
    requires
        parsed(payload) == Ok::<Tree, Seq<char>>(encoded(action)),
    ensures
        decoded(payload) == Ok::<ActionView, DecodeErrorView>(action),
{
    lemma_decode_inverts_encode(action);
}

/// One message as the transport hands it over.
#[derive(Debug, Clone, PartialEq, Eq)]
pub enum Frame {
    /// A text frame with its payload.
    Text(String),
    /// Any frame that carries no text.
    Other,
}

/// The mathematical model of a [`Frame`].
pub ghost enum FrameView {
    Text(Seq<char>),
    Other,
}

impl View for Frame {
    type V = FrameView;

    open spec fn view(&self) -> FrameView {
        match *self {
            Frame::Text(payload) => FrameView::Text(payload@),
            Frame::Other => FrameView::Other,
        }
    }
}

/// Why a frame gave no action.
#[derive(Debug, Clone, PartialEq, Eq)]
pub enum CodecError {
    /// The frame carries no text.
    UnsupportedFrame,
    /// The frame's text was refused.
    Decode(DecodeError),
}

/// The mathematical model of a [`CodecError`].
pub ghost enum CodecErrorView {
    UnsupportedFrame,
    Decode(DecodeErrorView),
}

impl View for CodecError {
    type V = CodecErrorView;

    open spec fn view(&self) -> CodecErrorView {
        match *self {
            CodecError::UnsupportedFrame => CodecErrorView::UnsupportedFrame,
            CodecError::Decode(error) => CodecErrorView::Decode(error@),
        }
    }
}

/// The action that a frame stands for: that of its payload where it is a text
/// frame; no other frame stands for one.
pub open spec fn decoded_frame(frame: FrameView) -> Result<ActionView, CodecErrorView> {
    match frame {
        FrameView::Text(payload) => match decoded(payload) {
            Ok(action) => Ok(action),
            Err(error) => Err(CodecErrorView::Decode(error)),
        },
        FrameView::Other => Err(CodecErrorView::UnsupportedFrame),
    }
}

/// Decodes a frame.
///
/// A text frame decodes as its payload does; any other frame is refused as
/// unsupported.
pub fn decode_frame(frame: &Frame) -> (r: Result<Action, CodecError>)
    ensures
        result_view(r) == decoded_frame(frame@),
{
    match frame {
        Frame::Text(payload) => match decode(payload.as_str()) {
            Ok(action) => Ok(action),
            Err(error) => Err(CodecError::Decode(error)),
        },
        Frame::Other => Err(CodecError::UnsupportedFrame),
    }
}

/// The items one after another, with a comma between each two.
pub open spec fn joined(items: Seq<Seq<char>>) -> Seq<char>
    decreases items.len(),
{
    if items.len() == 0 {
        Seq::empty()
    } else if items.len() == 1 {
        items[0]
    } else {
        joined(items.drop_last()) + ","@ + items.last()
    }
}

/// Each text as a JSON string literal.
pub open spec fn quoted_all(items: Seq<Seq<char>>) -> Seq<Seq<char>> {
    Seq::new(items.len(), |i: int| quoted(items[i]))
}

/// The text of a capability listing around the string literals of its names.
pub open spec fn listing_text(literals: Seq<Seq<char>>) -> Seq<char> {
    "{\"Capabilities\":{\"apps\":["@ + joined(literals) + "]}}"@
}

/// The one encoded form of a response: the variant name as the only key of an
/// object, and under it an object with the variant's fields.
pub open spec fn response_text(response: ResponseView) -> Seq<char> {
    match response {
        ResponseView::Capabilities { apps } => listing_text(quoted_all(apps)),
    }
}

/// Puts the items one after another, with a comma between each two.
pub fn join(items: &Vec<String>) -> (r: String)
    ensures
        r@ == joined(texts(items@)),
{
    let ghost all = texts(items@);
    let mut list = String::new();
    let mut i: usize = 0;
    while i < items.len()
        invariant
            i <= items.len(),
            all == texts(items@),
            list@ == joined(all.take(i as int)),
        decreases items.len() - i,
    {
        if i > 0 {
            list.append(",");
        }
        list.append(items[i].as_str());
        proof {
            let upto = all.take(i as int + 1);
            assert(upto.drop_last() =~= all.take(i as int));
            assert(upto.last() == items@[i as int]@);
            if i == 0 {
                assert(list@ =~= items@[0]@);
            }
        }
        i += 1;
    }
    proof {
        assert(all.take(i as int) =~= all);
    }
    list
}

/// Writes a capability listing around the string literals of its names:
/// exactly [`listing_text`] of them.
pub fn frame_listing(literals: &Vec<String>) -> (r: String)
    ensures
        r@ == listing_text(texts(literals@)),
{
    let list = join(literals);
    let mut out = String::from_str("{\"Capabilities\":{\"apps\":[");
    out.append(list.as_str());
    out.append("]}}");
    out
}

/// Prints each text as a JSON string literal, one for one and in order.
pub fn quote_all(items: &Vec<String>) -> (r: Vec<String>)
    ensures
        texts(r@) == quoted_all(texts(items@)),
{
    let mut literals: Vec<String> = Vec::new();
    let mut i: usize = 0;
    while i < items.len()
        invariant
            i <= items.len(),
            literals@.len() == i,
            forall|j: int| 0 <= j < i ==> literals@[j]@ == quoted(items@[j]@),
        decreases items.len() - i,
    {
        literals.push(quote(items[i].as_str()));
        i += 1;
    }
    assert(texts(literals@) =~= quoted_all(texts(items@)));
    literals
}

/// Writes a response out.
///
/// Every response has exactly one text, [`response_text`]: the application
/// names come as JSON string literals, in their order, none left out.
pub fn encode_response(response: &Response) -> (r: String)
    ensures
        r@ == response_text(response@),
{
    match response {
        Response::Capabilities { apps } => frame_listing(&quote_all(apps)),
    }
}

/// What the client is told of a cause.
pub open spec fn cause_text(cause: DecodeCauseView) -> Seq<char> {
    match cause {
        DecodeCauseView::Syntax(message) => message,
        DecodeCauseView::Shape => "expected a variant name or an object with one member"@,
        DecodeCauseView::UnknownTag => "unknown variant"@,
        DecodeCauseView::UnknownField => "unknown field"@,
        DecodeCauseView::MissingField => "missing field"@,
        DecodeCauseView::DuplicateField => "duplicate field"@,
        DecodeCauseView::WrongType => "invalid type"@,
    }
}

/// What the client is told of a refused payload.
pub open spec fn decode_error_text(error: DecodeErrorView) -> Seq<char> {
    "Could not decode message: "@ + cause_text(error.cause)
}

/// What the client is told of a frame that gave no action.
pub open spec fn codec_error_text(error: CodecErrorView) -> Seq<char> {
    match error {
        CodecErrorView::UnsupportedFrame => "Message could not be understood as text"@,
        CodecErrorView::Decode(error) => decode_error_text(error),
    }
}

impl DecodeCause {
    /// The cause in words.
    pub fn message(&self) -> (r: String)
        ensures
            r@ == cause_text(self@),
    {
        match self {
            DecodeCause::Syntax(message) => message.clone(),
            DecodeCause::Shape => String::from_str(
                "expected a variant name or an object with one member",
            ),
            DecodeCause::UnknownTag => String::from_str("unknown variant"),
            DecodeCause::UnknownField => String::from_str("unknown field"),
            DecodeCause::MissingField => String::from_str("missing field"),
            DecodeCause::DuplicateField => String::from_str("duplicate field"),
            DecodeCause::WrongType => String::from_str("invalid type"),
        }
    }
}

impl DecodeError {
    /// The error in words, as the client is told it.
    pub fn message(&self) -> (r: String)
        ensures
            r@ == decode_error_text(self@),
    {
        let cause = self.cause.message();
        String::from_str("Could not decode message: ").concat(cause.as_str())
    }
}

impl CodecError {
    /// The error in words, as the client is told it.
    pub fn message(&self) -> (r: String)
        ensures
            r@ == codec_error_text(self@),
    {
        match self {
            CodecError::UnsupportedFrame => String::from_str(
                "Message could not be understood as text",
            ),
            CodecError::Decode(error) => error.message(),
        }
    }
}

} // verus!
