//! From a recipe document to the payload that the device accepts.
//!
//! A recipe arrives as JSON text. The builder reads the fields it knows,
//! fills in the defaults of the device, and yields a `DevicePayload`, which
//! `into_json` turns back into a JSON value for the wire.

use crate::json::{
    as_float_value, as_integer, as_items, as_text, array_value, error_detail, float_of,
    float_of_integer, integer_of, integer_value, items_of, json_members, json_model, json_parse,
    json_render,
    member, member_of, models, new_object, object_insert, object_value, parse_json, text_of,
    text_value, Json,
};
use crate::text::{
    ends_with, has_prefix, has_suffix, is_ascii_alphanumeric, char_is_ascii_alphanumeric,
    or_default, push_str, replace_char, replace_chars, same_text, starts_with, subvec,
    is_whitespace, lemma_skip_trailing_is_prefix, skip_trailing, text_or_default, to_chars,
    to_text, trim, trim_chars, trim_class, trim_end_chars, trimmed, CharClass,
};
use vstd::pervasive::unreached;
use vstd::prelude::*;

verus! {

/// The lower temperature bound, in degrees, of a compensated step that names
/// none.
pub const DEFAULT_MIN_TEMPERATURE: i64 = 18;

/// The upper temperature bound, in degrees, of a compensated step that names
/// none.
pub const DEFAULT_MAX_TEMPERATURE: i64 = 24;

/// One step of a program, as the device takes it.
#[derive(Clone, Debug, PartialEq)]
pub struct DeviceStep {
    pub name: String,
    pub time: i64,
    pub agitation: String,
    pub compensation: String,
    pub formula_designator: Option<String>,
    pub min_temperature: Option<serde_json::Value>,
    pub max_temperature: Option<serde_json::Value>,
}

/// A program, as the device takes it.
#[derive(Clone, Debug, PartialEq)]
pub struct DevicePayload {
    pub name: String,
    pub designator: String,
    pub category: String,
    pub expanded_title: String,
    pub steps: Vec<DeviceStep>,
}

/// Why no payload could be built.
#[derive(Clone, Debug, PartialEq)]
pub enum RecipeError {
    /// The text is no JSON document; the detail is the parser's message.
    InvalidJson(String),
    /// The document has no `steps` array.
    MissingSteps,
}

/// A device step, as contracts see it.
pub struct StepModel {
    pub name: Seq<char>,
    pub time: int,
    pub agitation: Seq<char>,
    pub compensation: Seq<char>,
    pub formula_designator: Option<Seq<char>>,
    pub min_temperature: Option<Json>,
    pub max_temperature: Option<Json>,
}

/// A payload, as contracts see it.
pub struct PayloadModel {
    pub name: Seq<char>,
    pub designator: Seq<char>,
    pub category: Seq<char>,
    pub expanded_title: Seq<char>,
    pub steps: Seq<StepModel>,
}

/// A build error, as contracts see it.
pub enum RecipeErrorModel {
    InvalidJson(Seq<char>),
    MissingSteps,
}

/// An optional text over the views.
pub open spec fn optional_text(s: Option<String>) -> Option<Seq<char>> {
    match s {
        Some(t) => Some(t@),
        None => None,
    }
}

/// An optional value over the models.
pub open spec fn optional_json(v: Option<serde_json::Value>) -> Option<Json> {
    match v {
        Some(x) => Some(json_model(x)),
        None => None,
    }
}

impl View for DeviceStep {
    type V = StepModel;

    open spec fn view(&self) -> StepModel {
        StepModel {
            name: self.name@,
            time: self.time as int,
            agitation: self.agitation@,
            compensation: self.compensation@,
            formula_designator: optional_text(self.formula_designator),
            min_temperature: optional_json(self.min_temperature),
            max_temperature: optional_json(self.max_temperature),
        }
    }
}

impl View for DevicePayload {
    type V = PayloadModel;

    open spec fn view(&self) -> PayloadModel {
        PayloadModel {
            name: self.name@,
            designator: self.designator@,
            category: self.category@,
            expanded_title: self.expanded_title@,
            steps: Seq::new(self.steps@.len(), |i: int| self.steps@[i]@),
        }
    }
}

impl View for RecipeError {
    type V = RecipeErrorModel;

    open spec fn view(&self) -> RecipeErrorModel {
        match self {
            RecipeError::InvalidJson(detail) => RecipeErrorModel::InvalidJson(detail@),
            RecipeError::MissingSteps => RecipeErrorModel::MissingSteps,
        }
    }
}

impl RecipeError {
    /// The words for an error.
    pub open spec fn message_text(e: RecipeErrorModel) -> Seq<char> {
        match e {
            RecipeErrorModel::InvalidJson(detail) => "Invalid recipe JSON: "@ + detail,
            RecipeErrorModel::MissingSteps => "Recipe JSON missing steps array"@,
        }
    }

    /// The error in words.
    pub fn message(&self) -> (r: String)
        ensures
            r@ == Self::message_text(self@),
    {
        match self {
            RecipeError::InvalidJson(detail) => {
                let mut out = to_chars("Invalid recipe JSON: ");
                push_str(&mut out, detail.as_str());
                to_text(&out)
            },
            RecipeError::MissingSteps => "Recipe JSON missing steps array".to_string(),
        }
    }
}

/// What a build gave, over the models.
pub open spec fn outcome(r: Result<DevicePayload, RecipeError>) -> Result<
    PayloadModel,
    RecipeErrorModel,
> {
    match r {
        Ok(p) => Ok(p@),
        Err(e) => Err(e@),
    }
}

/// The text under `key` as it stands, empty where there is none.
pub open spec fn raw_field(j: Json, key: Seq<char>) -> Seq<char> {
    match member_of(j, key) {
        Some(m) => match text_of(m) {
            Some(s) => s,
            None => Seq::empty(),
        },
        None => Seq::empty(),
    }
}

/// The trimmed text under `key`, empty where there is none.
pub open spec fn string_field(j: Json, key: Seq<char>) -> Seq<char> {
    trim(raw_field(j, key))
}

/// The integer under `key`, zero where there is none.
pub open spec fn integer_field(j: Json, key: Seq<char>) -> int {
    match member_of(j, key) {
        Some(m) => match integer_of(m) {
            Some(i) => i as int,
            None => 0,
        },
        None => 0,
    }
}

/// The number under `key` as a double, zero where there is none.
pub open spec fn float_field(j: Json, key: Seq<char>) -> Json {
    match member_of(j, key) {
        Some(m) => match float_of(m) {
            Some(f) => f,
            None => Json::Float(float_of_integer(0)),
        },
        None => Json::Float(float_of_integer(0)),
    }
}

/// A temperature bound of a compensated step: the number under `key`, or the
/// preset where the step has no such member.
pub open spec fn temperature_field(j: Json, key: Seq<char>, preset: int) -> Json {
    if member_of(j, key) is Some {
        float_field(j, key)
    } else {
        Json::Float(float_of_integer(preset))
    }
}

/// The seconds that a source step lasts: its `time`, or minutes and seconds
/// together where it has none; never negative, and no more than an `i64`
/// holds.
pub open spec fn step_time(j: Json) -> int {
    let raw = if member_of(j, "time"@) is Some {
        integer_field(j, "time"@)
    } else {
        integer_field(j, "time_min"@) * 60 + integer_field(j, "time_sec"@)
    };
    if raw < 0 {
        0
    } else if raw > i64::MAX {
        i64::MAX as int
    } else {
        raw
    }
}

/// The device step that a source step becomes.
pub open spec fn step_of(j: Json) -> StepModel {
    let compensation = or_default(string_field(j, "compensation"@), "Off"@);
    let formula = string_field(j, "formula_designator"@);
    StepModel {
        name: string_field(j, "name"@),
        time: step_time(j),
        agitation: or_default(string_field(j, "agitation"@), "Roll"@),
        compensation,
        formula_designator: if formula.len() == 0 {
            None
        } else {
            Some(formula)
        },
        min_temperature: if compensation != "Off"@ {
            Some(temperature_field(j, "min_temperature"@, DEFAULT_MIN_TEMPERATURE as int))
        } else {
            None
        },
        max_temperature: if compensation != "Off"@ {
            Some(temperature_field(j, "max_temperature"@, DEFAULT_MAX_TEMPERATURE as int))
        } else {
            None
        },
    }
}

/// Whether a character of a file name may stand in a program name.
pub open spec fn is_name_char(c: char) -> bool {
    is_ascii_alphanumeric(c) || c == '_' || c == '-'
}

/// The program name that a file name suggests.
pub open spec fn sanitized_name(filename: Seq<char>) -> Seq<char> {
    let stem = if has_suffix(filename, ".json"@) {
        filename.subrange(0, filename.len() - ".json"@.len())
    } else {
        filename
    };
    let cleaned = Seq::new(
        stem.len(),
        |i: int|
            if is_name_char(stem[i]) {
                stem[i]
            } else {
                '_'
            },
    );
    let shown = replace_char(trim_class(cleaned, CharClass::Exactly('_')), '_', ' ');
    or_default(shown, "Custom Program"@)
}

/// The name of the program: the film stock, or what the file name suggests
/// where the film stock is blank.
pub open spec fn payload_name(filename: Seq<char>, film_stock: Seq<char>) -> Seq<char> {
    if trim(film_stock).len() == 0 {
        sanitized_name(filename)
    } else {
        trim(film_stock)
    }
}

/// The recipe's own title, made ready for the device. A blank title is
/// empty. A title that begins with a blank and a dash as it stands is handed
/// on with that start, only without the blanks that follow it. Any other
/// title is trimmed, and led by ` - ` unless it begins with a dash.
pub open spec fn own_title(raw: Seq<char>) -> Seq<char> {
    let existing = trim(raw);
    if existing.len() == 0 {
        existing
    } else if has_prefix(raw, " -"@) {
        skip_trailing(raw, CharClass::Whitespace)
    } else if has_prefix(existing, "-"@) {
        existing
    } else {
        " - "@ + existing
    }
}

/// The expanded title: developer and dilution, led by ` - `, where the
/// caller gives one of them; else the recipe's own title.
pub open spec fn payload_title(doc: Json, developer: Seq<char>, dilution: Seq<char>) -> Seq<char> {
    let dev = trim(developer);
    let dil = trim(dilution);
    if dev.len() == 0 && dil.len() == 0 {
        own_title(raw_field(doc, "expanded_title"@))
    } else if dev.len() == 0 {
        " - "@ + dil
    } else if dil.len() == 0 {
        " - "@ + dev
    } else {
        " - "@ + dev + " "@ + dil
    }
}

/// The source steps of a document, where it has a `steps` array.
pub open spec fn steps_of(doc: Json) -> Option<Seq<Json>> {
    match member_of(doc, "steps"@) {
        Some(s) => items_of(s),
        None => None,
    }
}

/// The payload that a document and the caller's texts give.
pub open spec fn payload_of(
    doc: Json,
    filename: Seq<char>,
    film_stock: Seq<char>,
    developer: Seq<char>,
    dilution: Seq<char>,
) -> Result<PayloadModel, RecipeErrorModel> {
    match steps_of(doc) {
        None => Err(RecipeErrorModel::MissingSteps),
        Some(items) => Ok(
            PayloadModel {
                name: payload_name(filename, film_stock),
                designator: "C2"@,
                category: or_default(string_field(doc, "category"@), "BW"@),
                expanded_title: payload_title(doc, developer, dilution),
                steps: Seq::new(items.len(), |i: int| step_of(items[i])),
            },
        ),
    }
}

/// The payload that a recipe text and the caller's texts give.
pub open spec fn build_result(
    json_content: Seq<char>,
    filename: Seq<char>,
    film_stock: Seq<char>,
    developer: Seq<char>,
    dilution: Seq<char>,
) -> Result<PayloadModel, RecipeErrorModel> {
    match json_parse(json_content) {
        Ok(doc) => payload_of(doc, filename, film_stock, developer, dilution),
        Err(detail) => Err(RecipeErrorModel::InvalidJson(detail)),
    }
}

/// The text under `key` as it stands, empty where the value has no such
/// member or the member is no string.
pub fn to_raw_field(value: &serde_json::Value, key: &str) -> (r: String)
    ensures
        r@ == raw_field(json_model(*value), key@),
{
    match member(value, key) {
        Some(m) => match as_text(m) {
            Some(s) => s.to_string(),
            None => String::new(),
        },
        None => String::new(),
    }
}

/// The trimmed text under `key`, empty where the value has no such member
/// or the member is no string.
pub fn to_string_field(value: &serde_json::Value, key: &str) -> (r: String)
    ensures
        r@ == string_field(json_model(*value), key@),
{
    let raw = to_raw_field(value, key);
    trimmed(raw.as_str())
}

/// The integer under `key`, zero where the value has no such member or the
/// member is no integer that an `i64` holds.
pub fn to_i64_field(value: &serde_json::Value, key: &str) -> (r: i64)
    ensures
        r == integer_field(json_model(*value), key@),
{
    match member(value, key) {
        Some(m) => match as_integer(m) {
            Some(i) => i,
            None => 0,
        },
        None => 0,
    }
}

/// The double that `n` converts to, as a JSON value.
pub fn float_from_integer(n: i64) -> (r: serde_json::Value)
    ensures
        json_model(r) == Json::Float(float_of_integer(n as int)),
{
    let whole = integer_value(n);
    match as_float_value(&whole) {
        Some(x) => x,
        None => unreached(),
    }
}

/// The number under `key` as a double, zero where the value has no such
/// member or the member is no number.
pub fn to_f64_field(value: &serde_json::Value, key: &str) -> (r: serde_json::Value)
    ensures
        json_model(r) == float_field(json_model(*value), key@),
{
    let found = match member(value, key) {
        Some(m) => as_float_value(m),
        None => None,
    };
    match found {
        Some(x) => x,
        None => float_from_integer(0),
    }
}

/// The program name that a file name suggests: without a final `.json`,
/// with every character that is no ASCII letter, digit, `_` or `-` taken as
/// `_`, without the `_` at both ends, and with a blank for each `_` left;
/// `Custom Program` where nothing is left.
pub fn sanitize_name_from_filename(filename: &str) -> (r: String)
    ensures
        r@ == sanitized_name(filename@),
{
    let chars = to_chars(filename);
    let suffix = to_chars(".json");
    let stem = if ends_with(&chars, &suffix) {
        subvec(&chars, 0, chars.len() - suffix.len())
    } else {
        chars
    };
    let mut cleaned: Vec<char> = Vec::new();
    let mut i: usize = 0;
    while i < stem.len()
        invariant
            i <= stem.len(),
            cleaned@.len() == i,
            forall|j: int|
                0 <= j < i ==> cleaned@[j] == (if is_name_char(stem@[j]) {
                    stem@[j]
                } else {
                    '_'
                }),
        decreases stem.len() - i,
    {
        let c = stem[i];
        let keep = char_is_ascii_alphanumeric(c) || c == '_' || c == '-';
        cleaned.push(if keep { c } else { '_' });
        i += 1;
    }
    assert(cleaned@ =~= Seq::new(
        stem@.len(),
        |i: int|
            if is_name_char(stem@[i]) {
                stem@[i]
            } else {
                '_'
            },
    ));
    let kept = trim_chars(&cleaned, CharClass::Exactly('_'));
    let shown = replace_chars(&kept, '_', ' ');
    text_or_default(to_text(&shown), "Custom Program")
}

/// The recipe's own title, made ready for the device.
pub fn normalize_title(raw: &str) -> (r: String)
    ensures
        r@ == own_title(raw@),
{
    let chars = to_chars(raw);
    let existing = trim_chars(&chars, CharClass::Whitespace);
    if existing.len() == 0 {
        to_text(&existing)
    } else if starts_with(&chars, &to_chars(" -")) {
        let kept = trim_end_chars(&chars, CharClass::Whitespace);
        to_text(&kept)
    } else if starts_with(&existing, &to_chars("-")) {
        to_text(&existing)
    } else {
        let mut out = to_chars(" - ");
        let mut rest = existing;
        out.append(&mut rest);
        to_text(&out)
    }
}

fn build_title(doc: &serde_json::Value, developer: &str, dilution: &str) -> (r: String)
    ensures
        r@ == payload_title(json_model(*doc), developer@, dilution@),
{
    let dev = trimmed(developer);
    let dil = trimmed(dilution);
    if dev.as_str().is_empty() && dil.as_str().is_empty() {
        let raw = to_raw_field(doc, "expanded_title");
        normalize_title(raw.as_str())
    } else {
        let mut out = to_chars(" - ");
        if dev.as_str().is_empty() {
            push_str(&mut out, dil.as_str());
        } else {
            push_str(&mut out, dev.as_str());
            if !dil.as_str().is_empty() {
                push_str(&mut out, " ");
                push_str(&mut out, dil.as_str());
            }
        }
        to_text(&out)
    }
}

fn build_temperature(step: &serde_json::Value, key: &str, preset: i64) -> (r: serde_json::Value)
    ensures
        json_model(r) == temperature_field(json_model(*step), key@, preset as int),
{
    if member(step, key).is_some() {
        to_f64_field(step, key)
    } else {
        float_from_integer(preset)
    }
}

/// The device step that the source step `step` becomes.
pub fn build_step(step: &serde_json::Value) -> (r: DeviceStep)
    ensures
        r@ == step_of(json_model(*step)),
        step_well_formed(r@),
{
    proof {
        lemma_step_is_well_formed(json_model(*step));
    }
    let raw: i128 = if member(step, "time").is_some() {
        to_i64_field(step, "time") as i128
    } else {
        (to_i64_field(step, "time_min") as i128) * 60 + (to_i64_field(step, "time_sec") as i128)
    };
    let time: i64 = if raw < 0 {
        0
    } else if raw > i64::MAX as i128 {
        i64::MAX
    } else {
        raw as i64
    };
    let compensation = text_or_default(to_string_field(step, "compensation"), "Off");
    let formula = to_string_field(step, "formula_designator");
    let compensated = !same_text(compensation.as_str(), "Off");
    let min_temperature = if compensated {
        Some(build_temperature(step, "min_temperature", DEFAULT_MIN_TEMPERATURE))
    } else {
        None
    };
    let max_temperature = if compensated {
        Some(build_temperature(step, "max_temperature", DEFAULT_MAX_TEMPERATURE))
    } else {
        None
    };
    DeviceStep {
        name: to_string_field(step, "name"),
        time,
        agitation: text_or_default(to_string_field(step, "agitation"), "Roll"),
        compensation,
        formula_designator: if formula.as_str().is_empty() {
            None
        } else {
            Some(formula)
        },
        min_temperature,
        max_temperature,
    }
}

/// Builds the payload from a parsed recipe document.
pub fn payload_from_document(
    doc: &serde_json::Value,
    filename: &str,
    film_stock: &str,
    developer: &str,
    dilution: &str,
) -> (r: Result<DevicePayload, RecipeError>)
    ensures
        outcome(r) == payload_of(json_model(*doc), filename@, film_stock@, developer@, dilution@),
        r matches Ok(p) ==> payload_well_formed(p@),
{
    proof {
        lemma_payload_is_well_formed(json_model(*doc), filename@, film_stock@, developer@, dilution@);
    }
    let found = match member(doc, "steps") {
        Some(s) => as_items(s),
        None => None,
    };
    let source_steps = match found {
        Some(items) => items,
        None => {
            return Err(RecipeError::MissingSteps);
        },
    };
    let category = text_or_default(to_string_field(doc, "category"), "BW");
    let stock = trimmed(film_stock);
    let name = if stock.as_str().is_empty() {
        sanitize_name_from_filename(filename)
    } else {
        stock
    };
    let expanded_title = build_title(doc, developer, dilution);
    let ghost items = models(source_steps@);
    let mut steps: Vec<DeviceStep> = Vec::new();
    let mut i: usize = 0;
    while i < source_steps.len()
        invariant
            i <= source_steps.len(),
            items == models(source_steps@),
            steps@.len() == i,
            forall|k: int| 0 <= k < i ==> (#[trigger] steps@[k])@ == step_of(items[k]),
        decreases source_steps.len() - i,
    {
        let step = build_step(&source_steps[i]);
        steps.push(step);
        i += 1;
    }
    let payload = DevicePayload {
        name,
        designator: "C2".to_string(),
        category,
        expanded_title,
        steps,
    };
    assert(payload@.steps =~= Seq::new(items.len(), |i: int| step_of(items[i])));
    Ok(payload)
}

/// Builds the payload that the device takes from a recipe text, the name of
/// the file it came from, and the film stock, developer and dilution that the
/// caller gives, any of which may be empty.
pub fn build_custom_program_payload(
    json_content: &str,
    filename: &str,
    film_stock: &str,
    developer: &str,
    dilution: &str,
) -> (r: Result<DevicePayload, RecipeError>)
    ensures
        outcome(r) == build_result(json_content@, filename@, film_stock@, developer@, dilution@),
        r matches Ok(p) ==> payload_well_formed(p@),
{
    match parse_json(json_content) {
        Ok(doc) => payload_from_document(&doc, filename, film_stock, developer, dilution),
        Err(e) => Err(RecipeError::InvalidJson(error_detail(&e))),
    }
}

/// The members that every step has on the wire.
pub open spec fn step_base_members(s: StepModel) -> Map<Seq<char>, Json> {
    Map::<Seq<char>, Json>::empty().insert("name"@, Json::Text(s.name)).insert(
        "time"@,
        Json::Integer(s.time),
    ).insert("agitation"@, Json::Text(s.agitation)).insert(
        "compensation"@,
        Json::Text(s.compensation),
    )
}

/// `m` with `value` under `key`, where there is a value.
pub open spec fn with_member(m: Map<Seq<char>, Json>, key: Seq<char>, value: Option<Json>) -> Map<
    Seq<char>,
    Json,
> {
    match value {
        Some(v) => m.insert(key, v),
        None => m,
    }
}

/// A step on the wire: an object with the four fixed members, and the
/// optional ones where the step has them.
pub open spec fn step_json(s: StepModel) -> Json {
    let formula = match s.formula_designator {
        Some(f) => Some(Json::Text(f)),
        None => None,
    };
    Json::Object(
        with_member(
            with_member(
                with_member(step_base_members(s), "formula_designator"@, formula),
                "min_temperature"@,
                s.min_temperature,
            ),
            "max_temperature"@,
            s.max_temperature,
        ),
    )
}

/// A payload on the wire: an object of five members.
pub open spec fn payload_json(p: PayloadModel) -> Json {
    Json::Object(
        Map::<Seq<char>, Json>::empty().insert("name"@, Json::Text(p.name)).insert(
            "designator"@,
            Json::Text(p.designator),
        ).insert("category"@, Json::Text(p.category)).insert(
            "expanded_title"@,
            Json::Text(p.expanded_title),
        ).insert("steps"@, Json::Array(Seq::new(p.steps.len(), |i: int| step_json(p.steps[i])))),
    )
}

impl DeviceStep {
    /// The step as a JSON value.
    pub fn into_json(self) -> (r: serde_json::Value)
        ensures
            json_model(r) == step_json(self@),
    {
        let DeviceStep {
            name,
            time,
            agitation,
            compensation,
            formula_designator,
            min_temperature,
            max_temperature,
        } = self;
        let mut out = new_object();
        object_insert(&mut out, "name", text_value(name.as_str()));
        object_insert(&mut out, "time", integer_value(time));
        object_insert(&mut out, "agitation", text_value(agitation.as_str()));
        object_insert(&mut out, "compensation", text_value(compensation.as_str()));
        assert(json_members(out) == step_base_members(self@));
        match formula_designator {
            Some(f) => {
                object_insert(&mut out, "formula_designator", text_value(f.as_str()));
            },
            None => {},
        }
        match min_temperature {
            Some(t) => {
                object_insert(&mut out, "min_temperature", t);
            },
            None => {},
        }
        match max_temperature {
            Some(t) => {
                object_insert(&mut out, "max_temperature", t);
            },
            None => {},
        }
        object_value(out)
    }
}

impl DevicePayload {
    /// The payload as a JSON value.
    pub fn into_json(self) -> (r: serde_json::Value)
        ensures
            json_model(r) == payload_json(self@),
    {
        let DevicePayload { name, designator, category, expanded_title, steps } = self;
        let ghost all = steps@;
        let mut items: Vec<serde_json::Value> = Vec::new();
        for step in it: steps.into_iter()
            invariant
                it.seq() == all,
                items@.len() == it.index(),
                forall|k: int|
                    0 <= k < it.index() ==> json_model(#[trigger] items@[k]) == step_json(all[k]@),
        {
            items.push(step.into_json());
        }
        assert(models(items@) =~= Seq::new(
            self@.steps.len(),
            |i: int| step_json(self@.steps[i]),
        ));
        let mut out = new_object();
        object_insert(&mut out, "name", text_value(name.as_str()));
        object_insert(&mut out, "designator", text_value(designator.as_str()));
        object_insert(&mut out, "category", text_value(category.as_str()));
        object_insert(&mut out, "expanded_title", text_value(expanded_title.as_str()));
        object_insert(&mut out, "steps", array_value(items));
        object_value(out)
    }
}

/// What holds of every step that the builder makes: its time is not
/// negative, agitation and compensation are named, a formula designator is
/// not empty where there is one, and the temperature bounds are there, as
/// doubles, exactly where the compensation is not `Off`.
pub open spec fn step_well_formed(s: StepModel) -> bool {
    &&& 0 <= s.time <= i64::MAX
    &&& s.agitation.len() > 0
    &&& s.compensation.len() > 0
    &&& s.formula_designator matches Some(f) ==> f.len() > 0
    &&& (s.min_temperature is Some) == (s.compensation != "Off"@)
    &&& (s.max_temperature is Some) == (s.compensation != "Off"@)
    &&& s.min_temperature matches Some(t) ==> t is Float
    &&& s.max_temperature matches Some(t) ==> t is Float
}

/// What holds of every payload that the builder makes: name and category
/// are not empty, the designator is `C2`, and every step is well formed.
pub open spec fn payload_well_formed(p: PayloadModel) -> bool {
    &&& p.name.len() > 0
    &&& p.designator == "C2"@
    &&& p.category.len() > 0
    &&& forall|i: int| 0 <= i < p.steps.len() ==> step_well_formed(#[trigger] p.steps[i])
}

/// Every source step, whatever it holds, becomes a well-formed step.
pub proof fn lemma_step_is_well_formed(step: Json)
    ensures
        step_well_formed(step_of(step)),
{
    reveal_strlit("Roll");
    reveal_strlit("Off");
}

/// Every payload that is built is well formed.
pub proof fn lemma_payload_is_well_formed(
    doc: Json,
    filename: Seq<char>,
    film_stock: Seq<char>,
    developer: Seq<char>,
    dilution: Seq<char>,
)
    ensures
        payload_of(doc, filename, film_stock, developer, dilution) matches Ok(p)
            ==> payload_well_formed(p),
{
    reveal_strlit("BW");
    reveal_strlit("Custom Program");
    if let Ok(p) = payload_of(doc, filename, film_stock, developer, dilution) {
        let items = steps_of(doc)->0;
        assert forall|i: int| 0 <= i < p.steps.len() implies step_well_formed(
            #[trigger] p.steps[i],
        ) by {
            lemma_step_is_well_formed(items[i]);
        }
    }
}

/// A recipe's own title that begins with a blank and a dash keeps that
/// start, and is handed on unchanged where no blank follows it. Every other
/// title that is not blank begins with ` - `, unless its text begins with a
/// dash.
pub proof fn lemma_own_title(raw: Seq<char>)
    ensures
        trim(raw).len() == 0 ==> own_title(raw).len() == 0,
        trim(raw).len() > 0 && has_prefix(raw, " -"@) ==> has_prefix(own_title(raw), " -"@),
        has_prefix(raw, " -"@) && !is_whitespace(raw.last()) ==> own_title(raw) == raw,
        trim(raw).len() > 0 && !has_prefix(raw, " -"@) && !has_prefix(trim(raw), "-"@)
            ==> has_prefix(own_title(raw), " - "@) && own_title(raw) == " - "@ + trim(raw),
{
    reveal_strlit(" -");
    reveal_strlit(" - ");
    let blank = CharClass::Whitespace;
    lemma_skip_trailing_is_prefix(raw, blank);
    if has_prefix(raw, " -"@) {
        let head = raw.subrange(0, 2);
        assert(head == " -"@);
        assert(raw[1] == head[1]);
        assert(raw[1] == '-');
        assert(!blank.has(raw[1]));
        let kept = skip_trailing(raw, blank);
        assert(kept.len() >= 2);
        assert(kept.subrange(0, 2) =~= raw.subrange(0, 2));
        if trim(raw).len() == 0 {
            lemma_trim_keeps_what_is_no_blank(raw, 1);
        }
    }
    if trim(raw).len() > 0 && !has_prefix(raw, " -"@) && !has_prefix(trim(raw), "-"@) {
        assert((" - "@ + trim(raw)).subrange(0, 3) =~= " - "@);
    }
}

/// A text that holds a character that is no blank is not blank when it is
/// trimmed.
pub proof fn lemma_trim_keeps_what_is_no_blank(s: Seq<char>, i: int)
    requires
        0 <= i < s.len(),
        !is_whitespace(s[i]),
    ensures
        trim(s).len() > 0,
    decreases s.len(),
{
    let blank = CharClass::Whitespace;
    if s.len() > 0 && blank.has(s[0]) {
        let t = s.drop_first();
        assert(t[i - 1] == s[i]);
        lemma_trim_keeps_what_is_no_blank(t, i - 1);
    } else {
        lemma_skip_trailing_is_prefix(s, blank);
    }
}

/// A step whose compensation is on and whose source names no temperature
/// bound carries the presets, each as the double that the preset converts
/// to; a step whose compensation is `Off` carries no bound at all.
pub proof fn lemma_temperature_presets(step: Json)
    ensures
        step_of(step).compensation != "Off"@ && member_of(step, "min_temperature"@) is None
            ==> step_of(step).min_temperature == Some(
            Json::Float(float_of_integer(DEFAULT_MIN_TEMPERATURE as int)),
        ),
        step_of(step).compensation != "Off"@ && member_of(step, "max_temperature"@) is None
            ==> step_of(step).max_temperature == Some(
            Json::Float(float_of_integer(DEFAULT_MAX_TEMPERATURE as int)),
        ),
        step_of(step).compensation == "Off"@ ==> step_of(step).min_temperature is None && step_of(
            step,
        ).max_temperature is None,
        (step_of(step).min_temperature is Some) == (step_of(step).compensation != "Off"@),
        (step_of(step).max_temperature is Some) == (step_of(step).compensation != "Off"@),
{
}

/// A step is never shorter than zero seconds. Where its source names no
/// `time`, it lasts the minutes and seconds together: two minutes and thirty
/// seconds are 150 seconds, and a negative sum is zero.
pub proof fn lemma_step_time(step: Json)
    ensures
        0 <= step_of(step).time <= i64::MAX,
        member_of(step, "time"@) is None && 0 <= integer_field(step, "time_min"@) * 60
            + integer_field(step, "time_sec"@) <= i64::MAX ==> step_of(step).time == integer_field(
            step,
            "time_min"@,
        ) * 60 + integer_field(step, "time_sec"@),
        member_of(step, "time"@) is None && integer_field(step, "time_min"@) * 60 + integer_field(
            step,
            "time_sec"@,
        ) < 0 ==> step_of(step).time == 0,
        member_of(step, "time"@) is None && integer_field(step, "time_min"@) == 2 && integer_field(
            step,
            "time_sec"@,
        ) == 30 ==> step_of(step).time == 150,
        member_of(step, "time"@) is Some && integer_field(step, "time"@) >= 0 ==> step_of(
            step,
        ).time == integer_field(step, "time"@),
{
}

/// Every step of a built payload is the device step of the source step at
/// the same place, and the designator is always `C2`.
pub proof fn lemma_payload_steps(
    doc: Json,
    filename: Seq<char>,
    film_stock: Seq<char>,
    developer: Seq<char>,
    dilution: Seq<char>,
)
    ensures
        (payload_of(doc, filename, film_stock, developer, dilution) is Ok) == (steps_of(doc) is Some),
        payload_of(doc, filename, film_stock, developer, dilution) matches Ok(p) ==> {
            &&& p.designator == "C2"@
            &&& p.steps.len() == steps_of(doc)->0.len()
            &&& forall|i: int|
                0 <= i < p.steps.len() ==> #[trigger] p.steps[i] == step_of(steps_of(doc)->0[i])
            &&& forall|i: int| 0 <= i < p.steps.len() ==> (#[trigger] p.steps[i]).time >= 0
        },
{
}

/// Two builds from the same texts give the same outcome: payloads with equal
/// models, which render to the same JSON text, or the same error.
pub proof fn lemma_build_is_deterministic(
    json_content: Seq<char>,
    filename: Seq<char>,
    film_stock: Seq<char>,
    developer: Seq<char>,
    dilution: Seq<char>,
    first: Result<DevicePayload, RecipeError>,
    second: Result<DevicePayload, RecipeError>,
)
    requires
        outcome(first) == build_result(json_content, filename, film_stock, developer, dilution),
        outcome(second) == build_result(json_content, filename, film_stock, developer, dilution),
    ensures
        outcome(first) == outcome(second),
        first matches Ok(p) ==> second matches Ok(q) && p@ == q@ && json_render(
            payload_json(p@),
        ) == json_render(payload_json(q@)),
        first matches Err(e) ==> second matches Err(f) && e@ == f@,
{
}

} // verus!
