use ago_recipe_manager::recipe::{
    build_custom_program_payload, build_step, float_from_integer, normalize_title,
    payload_from_document, sanitize_name_from_filename, to_f64_field, to_i64_field, to_raw_field,
    to_string_field, DevicePayload,
    RecipeError, DEFAULT_MAX_TEMPERATURE, DEFAULT_MIN_TEMPERATURE,
};
use serde_json::Value;

fn parse(text: &str) -> Value {
    serde_json::from_str(text).unwrap()
}

fn build(json: &str) -> DevicePayload {
    build_custom_program_payload(json, "recipe.json", "", "", "").unwrap()
}

#[test]
fn sanitize_drops_suffix_and_punctuation() {
    assert_eq!(sanitize_name_from_filename("My Recipe!!.json"), "My Recipe");
}

#[test]
fn sanitize_turns_underscores_into_spaces() {
    assert_eq!(sanitize_name_from_filename("foo_bar-1.json"), "foo bar-1");
}

#[test]
fn sanitize_falls_back_to_custom_program() {
    assert_eq!(sanitize_name_from_filename(""), "Custom Program");
    assert_eq!(sanitize_name_from_filename(".json"), "Custom Program");
    assert_eq!(sanitize_name_from_filename("___"), "Custom Program");
    assert_eq!(sanitize_name_from_filename("!!!.json"), "Custom Program");
}

#[test]
fn sanitize_strips_the_suffix_once_and_only_in_lower_case() {
    assert_eq!(sanitize_name_from_filename("a.json.json"), "a json");
    assert_eq!(sanitize_name_from_filename("recipe.JSON"), "recipe JSON");
    assert_eq!(sanitize_name_from_filename("plain"), "plain");
}

#[test]
fn sanitize_replaces_non_ascii_letters() {
    assert_eq!(sanitize_name_from_filename("caf\u{e9} noir.json"), "caf  noir");
    assert_eq!(sanitize_name_from_filename("_a__b_.json"), "a  b");
}

#[test]
fn string_field_is_trimmed_and_defaults_to_empty() {
    let doc = parse(r#"{"a":"  x y  ","b":5,"c":null}"#);
    assert_eq!(to_string_field(&doc, "a"), "x y");
    assert_eq!(to_string_field(&doc, "b"), "");
    assert_eq!(to_string_field(&doc, "c"), "");
    assert_eq!(to_string_field(&doc, "missing"), "");
    assert_eq!(to_string_field(&parse("[1,2]"), "a"), "");
}

#[test]
fn integer_field_defaults_to_zero() {
    let doc = parse(r#"{"a":7,"b":-3,"c":"9","d":1.5,"e":18446744073709551615}"#);
    assert_eq!(to_i64_field(&doc, "a"), 7);
    assert_eq!(to_i64_field(&doc, "b"), -3);
    assert_eq!(to_i64_field(&doc, "c"), 0);
    assert_eq!(to_i64_field(&doc, "d"), 0);
    assert_eq!(to_i64_field(&doc, "e"), 0);
    assert_eq!(to_i64_field(&doc, "missing"), 0);
}

#[test]
fn float_field_converts_numbers_and_defaults_to_zero() {
    let doc = parse(r#"{"a":20,"b":19.5,"c":"hot","d":-2}"#);
    assert_eq!(to_f64_field(&doc, "a").as_f64(), Some(20.0));
    assert!(to_f64_field(&doc, "a").is_f64());
    assert_eq!(to_f64_field(&doc, "b").as_f64(), Some(19.5));
    assert_eq!(to_f64_field(&doc, "c").as_f64(), Some(0.0));
    assert_eq!(to_f64_field(&doc, "d").as_f64(), Some(-2.0));
    assert_eq!(to_f64_field(&doc, "missing").as_f64(), Some(0.0));
}

#[test]
fn float_from_integer_gives_a_double() {
    let v = float_from_integer(18);
    assert!(v.is_f64());
    assert_eq!(v.as_f64(), Some(18.0));
    assert_eq!(serde_json::to_string(&v).unwrap(), "18.0");
}

#[test]
fn temperature_presets_are_eighteen_and_twentyfour() {
    assert_eq!(DEFAULT_MIN_TEMPERATURE, 18);
    assert_eq!(DEFAULT_MAX_TEMPERATURE, 24);
}

#[test]
fn compensated_step_without_bounds_gets_the_presets() {
    let step = build_step(&parse(r#"{"name":"DEV","time":60,"compensation":"On"}"#));
    assert_eq!(step.compensation, "On");
    assert_eq!(step.min_temperature.as_ref().and_then(Value::as_f64), Some(18.0));
    assert_eq!(step.max_temperature.as_ref().and_then(Value::as_f64), Some(24.0));
}

#[test]
fn uncompensated_step_has_no_bounds() {
    let step = build_step(&parse(
        r#"{"name":"DEV","time":60,"compensation":"Off","min_temperature":19,"max_temperature":21}"#,
    ));
    assert_eq!(step.compensation, "Off");
    assert_eq!(step.min_temperature, None);
    assert_eq!(step.max_temperature, None);
}

#[test]
fn step_without_compensation_counts_as_off() {
    let step = build_step(&parse(r#"{"name":"DEV","time":60}"#));
    assert_eq!(step.compensation, "Off");
    assert_eq!(step.min_temperature, None);
    assert_eq!(step.max_temperature, None);
    let blank = build_step(&parse(r#"{"name":"DEV","compensation":"   "}"#));
    assert_eq!(blank.compensation, "Off");
    assert_eq!(blank.min_temperature, None);
}

#[test]
fn compensated_step_keeps_its_own_bounds() {
    let step = build_step(&parse(
        r#"{"compensation":"Time","min_temperature":19.5,"max_temperature":22}"#,
    ));
    assert_eq!(step.min_temperature.as_ref().and_then(Value::as_f64), Some(19.5));
    assert_eq!(step.max_temperature.as_ref().and_then(Value::as_f64), Some(22.0));
    assert!(step.max_temperature.as_ref().unwrap().is_f64());
}

#[test]
fn bound_that_is_no_number_becomes_zero() {
    let step = build_step(&parse(r#"{"compensation":"Time","min_temperature":"warm"}"#));
    assert_eq!(step.min_temperature.as_ref().and_then(Value::as_f64), Some(0.0));
    assert_eq!(step.max_temperature.as_ref().and_then(Value::as_f64), Some(24.0));
}

#[test]
fn minutes_and_seconds_are_combined() {
    let step = build_step(&parse(r#"{"time_min":2,"time_sec":30}"#));
    assert_eq!(step.time, 150);
}

#[test]
fn negative_time_is_clamped_to_zero() {
    assert_eq!(build_step(&parse(r#"{"time_min":-1,"time_sec":30}"#)).time, 0);
    assert_eq!(build_step(&parse(r#"{"time":-5}"#)).time, 0);
    assert_eq!(build_step(&parse(r#"{"time_min":-9223372036854775808,"time_sec":-1}"#)).time, 0);
}

#[test]
fn time_member_wins_over_minutes_and_seconds() {
    assert_eq!(build_step(&parse(r#"{"time":45,"time_min":2,"time_sec":30}"#)).time, 45);
    assert_eq!(build_step(&parse(r#"{"time":"45","time_min":2,"time_sec":30}"#)).time, 0);
    assert_eq!(build_step(&parse(r#"{"time":null,"time_min":2}"#)).time, 0);
}

#[test]
fn time_beyond_the_integer_range_is_capped() {
    let step = build_step(&parse(r#"{"time_min":9223372036854775807,"time_sec":59}"#));
    assert_eq!(step.time, i64::MAX);
    let exact = build_step(&parse(r#"{"time_min":153722867280912930,"time_sec":7}"#));
    assert_eq!(exact.time, i64::MAX);
    let below = build_step(&parse(r#"{"time_min":153722867280912930,"time_sec":6}"#));
    assert_eq!(below.time, i64::MAX - 1);
}

#[test]
fn step_defaults_for_agitation_and_formula() {
    let step = build_step(&parse(r#"{"name":" FIX ","agitation":"","formula_designator":" "}"#));
    assert_eq!(step.name, "FIX");
    assert_eq!(step.agitation, "Roll");
    assert_eq!(step.formula_designator, None);
    let other = build_step(&parse(r#"{"agitation":"Stick","formula_designator":" F1 "}"#));
    assert_eq!(other.agitation, "Stick");
    assert_eq!(other.formula_designator, Some("F1".to_string()));
}

#[test]
fn payload_defaults() {
    let payload = build(r#"{"steps":[]}"#);
    assert_eq!(payload.name, "recipe");
    assert_eq!(payload.designator, "C2");
    assert_eq!(payload.category, "BW");
    assert_eq!(payload.expanded_title, "");
    assert!(payload.steps.is_empty());
}

#[test]
fn payload_takes_category_and_film_stock() {
    let payload = build_custom_program_payload(
        r#"{"category":" C41 ","steps":[]}"#,
        "x.json",
        "  Tri-X 400 ",
        "",
        "",
    )
    .unwrap();
    assert_eq!(payload.category, "C41");
    assert_eq!(payload.name, "Tri-X 400");
}

#[test]
fn blank_film_stock_falls_back_to_the_file_name() {
    let payload =
        build_custom_program_payload(r#"{"steps":[]}"#, "My Recipe!!.json", "   ", "", "").unwrap();
    assert_eq!(payload.name, "My Recipe");
}

#[test]
fn title_reuses_the_recipes_own() {
    let title = |json: &str| build(json).expanded_title;
    assert_eq!(title(r#"{"expanded_title":"Rodinal","steps":[]}"#), " - Rodinal");
    assert_eq!(title(r#"{"expanded_title":" - Rodinal","steps":[]}"#), " - Rodinal");
    assert_eq!(title(r#"{"expanded_title":" - D76","steps":[]}"#), " - D76");
    assert_eq!(title(r#"{"expanded_title":" -Rodinal \n","steps":[]}"#), " -Rodinal");
    assert_eq!(title(r#"{"expanded_title":"  Rodinal  ","steps":[]}"#), " - Rodinal");
    assert_eq!(title(r#"{"expanded_title":"-Rodinal","steps":[]}"#), "-Rodinal");
    assert_eq!(title(r#"{"expanded_title":"   ","steps":[]}"#), "");
    assert_eq!(title(r#"{"expanded_title":7,"steps":[]}"#), "");
}

#[test]
fn title_from_developer_and_dilution() {
    let title = |developer: &str, dilution: &str| {
        build_custom_program_payload(
            r#"{"expanded_title":"own","steps":[]}"#,
            "x.json",
            "",
            developer,
            dilution,
        )
        .unwrap()
        .expanded_title
    };
    assert_eq!(title(" D76 ", " 1+1 "), " - D76 1+1");
    assert_eq!(title("D76", ""), " - D76");
    assert_eq!(title("  ", "1+1"), " - 1+1");
    assert_eq!(title(" ", " "), " - own");
}

#[test]
fn missing_steps_is_an_error() {
    for json in [r#"{}"#, r#"{"steps":"none"}"#, r#"{"steps":{}}"#, r#"[]"#, r#"null"#] {
        let err = build_custom_program_payload(json, "x.json", "", "", "").unwrap_err();
        assert_eq!(err, RecipeError::MissingSteps);
        assert_eq!(err.message(), "Recipe JSON missing steps array");
    }
}

#[test]
fn malformed_json_is_an_error_with_the_parsers_message() {
    let text = r#"{"steps": ["#;
    let err = build_custom_program_payload(text, "x.json", "", "", "").unwrap_err();
    let expected = serde_json::from_str::<Value>(text).unwrap_err().to_string();
    assert_eq!(err, RecipeError::InvalidJson(expected.clone()));
    assert_eq!(err.message(), format!("Invalid recipe JSON: {}", expected));
    assert!(err.message().starts_with("Invalid recipe JSON: EOF while parsing"));
}

#[test]
fn steps_keep_their_order() {
    let payload = build(r#"{"steps":[{"name":"DEV","time":1},{"name":"STOP","time":2},{"name":"FIX","time":3}]}"#);
    let names: Vec<&str> = payload.steps.iter().map(|s| s.name.as_str()).collect();
    assert_eq!(names, vec!["DEV", "STOP", "FIX"]);
    let times: Vec<i64> = payload.steps.iter().map(|s| s.time).collect();
    assert_eq!(times, vec![1, 2, 3]);
}

#[test]
fn steps_that_are_no_objects_become_default_steps() {
    let payload = build(r#"{"steps":[7,"x"]}"#);
    assert_eq!(payload.steps.len(), 2);
    assert_eq!(payload.steps[0].name, "");
    assert_eq!(payload.steps[0].time, 0);
    assert_eq!(payload.steps[0].agitation, "Roll");
    assert_eq!(payload.steps[0].compensation, "Off");
}

#[test]
fn payload_renders_to_the_wire_text() {
    let payload = build_custom_program_payload(
        r#"{"steps":[{"name":"DEV","time_min":2,"time_sec":30,"compensation":"On","formula_designator":"F"},{"name":"FIX","time":300}]}"#,
        "x.json",
        "Tri-X",
        "D76",
        "1+1",
    )
    .unwrap();
    let text = serde_json::to_string(&payload.into_json()).unwrap();
    assert_eq!(
        text,
        concat_all(&[
            r#"{"category":"BW","designator":"C2","expanded_title":" - D76 1+1","name":"Tri-X","#,
            r#""steps":[{"agitation":"Roll","compensation":"On","formula_designator":"F","#,
            r#""max_temperature":24.0,"min_temperature":18.0,"name":"DEV","time":150},"#,
            r#"{"agitation":"Roll","compensation":"Off","name":"FIX","time":300}]}"#,
        ])
    );
}

fn concat_all(parts: &[&str]) -> String {
    parts.iter().map(|p| p.to_string()).collect()
}

#[test]
fn step_renders_integer_bounds_as_doubles() {
    let step = build_step(&parse(r#"{"compensation":"On","min_temperature":20,"max_temperature":21.5}"#));
    let text = serde_json::to_string(&step.into_json()).unwrap();
    assert_eq!(
        text,
        r#"{"agitation":"Roll","compensation":"On","max_temperature":21.5,"min_temperature":20.0,"name":"","time":0}"#
    );
}

#[test]
fn building_twice_gives_the_same_payload_and_text() {
    let json = r#"{"category":"E6","expanded_title":"x","steps":[{"name":"A","time_min":1,"compensation":"On"},{"name":"B"}]}"#;
    let first = build_custom_program_payload(json, "f.json", "stock", "dev", "dil").unwrap();
    let second = build_custom_program_payload(json, "f.json", "stock", "dev", "dil").unwrap();
    assert_eq!(first, second);
    let a = serde_json::to_string(&first.into_json()).unwrap();
    let b = serde_json::to_string(&second.into_json()).unwrap();
    assert_eq!(a, b);
}

#[test]
fn building_from_a_document_matches_building_from_text() {
    let json = r#"{"steps":[{"name":"A","time":5}]}"#;
    let from_text = build_custom_program_payload(json, "f.json", "", "", "").unwrap();
    let from_doc = payload_from_document(&parse(json), "f.json", "", "", "").unwrap();
    assert_eq!(from_text, from_doc);
}

#[test]
fn later_duplicate_member_wins() {
    let payload = build(r#"{"category":"A","category":"B","steps":[]}"#);
    assert_eq!(payload.category, "B");
}

#[test]
fn title_that_begins_with_blank_and_dash_keeps_its_start() {
    assert_eq!(normalize_title(" - D76"), " - D76");
    assert_eq!(normalize_title(" - D76 1+1"), " - D76 1+1");
    assert_eq!(normalize_title(" -D76"), " -D76");
    assert_eq!(normalize_title(" - D76 \t\n"), " - D76");
    assert_eq!(normalize_title(" -"), " -");
}

#[test]
fn title_is_led_by_blank_dash_blank_unless_it_begins_with_a_dash() {
    assert_eq!(normalize_title("D76"), " - D76");
    assert_eq!(normalize_title("  D76  "), " - D76");
    assert_eq!(normalize_title("-D76"), "-D76");
    assert_eq!(normalize_title("- D76 "), "- D76");
    assert_eq!(normalize_title("\t- D76"), "- D76");
    assert_eq!(normalize_title("  - D76"), "- D76");
    assert_eq!(normalize_title("D - 76"), " - D - 76");
}

#[test]
fn blank_title_is_empty() {
    assert_eq!(normalize_title(""), "");
    assert_eq!(normalize_title(" "), "");
    assert_eq!(normalize_title(" \t\n "), "");
}

#[test]
fn raw_field_is_not_trimmed() {
    let doc = parse(r#"{"a":"  x y  ","b":5}"#);
    assert_eq!(to_raw_field(&doc, "a"), "  x y  ");
    assert_eq!(to_raw_field(&doc, "b"), "");
    assert_eq!(to_raw_field(&doc, "missing"), "");
}
