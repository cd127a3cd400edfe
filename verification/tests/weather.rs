use weather_report::render::render_report;
use weather_report::report::parse_report;
use weather_report::report::ReportError;
use weather_report::request::build_url;
use weather_report::strutil::str_eq;
use weather_report::units::parse_units;
use weather_report::units::units_or_default;
use weather_report::units::Units;

fn sample_doc() -> String {
    String::from(
        "{\"coord\":{\"lon\":2.35,\"lat\":48.85},\
         \"weather\":[{\"id\":800,\"main\":\"Clear\",\"description\":\"clear sky\",\"icon\":\"01d\"}],\
         \"base\":\"stations\",\"name\":\"Paris\",\
         \"wind\":{\"speed\":3.6,\"deg\":160,\"gust\":5.2},\
         \"main\":{\"temp\":18.5,\"feels_like\":17.9,\"temp_min\":15.0,\"temp_max\":21.0,\
         \"pressure\":1012.0,\"humidity\":72.0}}",
    )
}

#[test]
fn parse_units_metric_and_imperial() {
    assert_eq!(parse_units("metric"), Ok(Units::Metric));
    assert_eq!(parse_units("imperial"), Ok(Units::Imperial));
}

#[test]
fn parse_units_rejects_other_tokens() {
    assert_eq!(parse_units("celsius"), Err(String::from("unhandled metric")));
    assert_eq!(parse_units("Metric"), Err(String::from("unhandled metric")));
    assert_eq!(parse_units(""), Err(String::from("unhandled metric")));
    assert_eq!(parse_units("metric "), Err(String::from("unhandled metric")));
}

#[test]
fn units_query_tokens() {
    assert_eq!(Units::Metric.to_string(), "metric");
    assert_eq!(Units::Imperial.to_string(), "imperial");
}

#[test]
fn units_default_is_metric() {
    assert_eq!(units_or_default(None), Ok(Units::Metric));
    assert_eq!(units_or_default(Some("imperial")), Ok(Units::Imperial));
    assert_eq!(
        units_or_default(Some("kelvin")),
        Err(String::from("unhandled metric"))
    );
}

#[test]
fn display_attaches_suffix_verbatim() {
    assert_eq!(Units::Metric.display("18.5"), "18.5\u{b0}C");
    assert_eq!(Units::Imperial.display("18.5"), "18.5\u{b0}F");
    assert_eq!(Units::Metric.display("-3.25"), "-3.25\u{b0}C");
    assert_eq!(Units::Imperial.display(""), "\u{b0}F");
}

#[test]
fn build_url_happy_path() {
    let url = build_url("Paris", "ABC123", &Units::Metric);
    assert_eq!(
        url,
        "https://api.openweathermap.org/data/2.5/weather?q=Paris&appid=ABC123&units=metric"
    );
}

#[test]
fn build_url_distinct_inputs_distinct_urls() {
    let a = build_url("Paris", "ABC123", &Units::Metric);
    let b = build_url("London", "ABC123", &Units::Metric);
    let c = build_url("Paris", "XYZ", &Units::Metric);
    let d = build_url("Paris", "ABC123", &Units::Imperial);
    assert_ne!(a, b);
    assert_ne!(a, c);
    assert_ne!(a, d);
}

#[test]
fn parse_report_populates_fields() {
    let doc = sample_doc();
    let r = parse_report(&doc).unwrap();
    assert_eq!(r.coord.lon, "2.35");
    assert_eq!(r.coord.lat, "48.85");
    assert_eq!(r.weather.len(), 1);
    assert_eq!(r.weather[0].id, 800);
    assert_eq!(r.weather[0].main, "Clear");
    assert_eq!(r.weather[0].description, "clear sky");
    assert_eq!(r.weather[0].icon, "01d");
    assert_eq!(r.base, "stations");
    assert_eq!(r.name, "Paris");
    assert_eq!(r.wind.speed, "3.6");
    assert_eq!(r.wind.deg, 160);
    assert_eq!(r.wind.gust, Some(String::from("5.2")));
    assert_eq!(r.main.temp, "18.5");
    assert_eq!(r.main.feels_like, "17.9");
    assert_eq!(r.main.temp_min, "15");
    assert_eq!(r.main.temp_max, "21");
    assert_eq!(r.main.pressure, "1012");
    assert_eq!(r.main.humidity, "72");
}

#[test]
fn parse_report_round_trip_equivalent() {
    let doc = sample_doc();
    let first = parse_report(&doc).unwrap();
    let value: serde_json::Value = serde_json::from_str(&doc).unwrap();
    let reserialized = serde_json::to_string(&value).unwrap();
    let second = parse_report(&reserialized).unwrap();
    assert_eq!(first, second);
}

#[test]
fn missing_required_field_fails() {
    let doc = "{\"coord\":{\"lon\":2.35,\"lat\":48.85},\
                \"weather\":[],\"base\":\"stations\",\"name\":\"Paris\",\
                \"wind\":{\"speed\":3.6,\"deg\":160},\
                \"main\":{\"feels_like\":17.9,\"temp_min\":15.0,\"temp_max\":21.0,\
                \"pressure\":1012.0,\"humidity\":72.0}}";
    assert_eq!(
        parse_report(doc),
        Err(ReportError::Field(String::from("main.temp")))
    );
}

#[test]
fn missing_main_object_fails() {
    let doc = "{\"coord\":{\"lon\":2.35,\"lat\":48.85},\
                \"weather\":[],\"base\":\"stations\",\"name\":\"Paris\",\
                \"wind\":{\"speed\":3.6,\"deg\":160}}";
    assert_eq!(
        parse_report(doc),
        Err(ReportError::Field(String::from("main.temp")))
    );
}

#[test]
fn weather_element_missing_field_fails() {
    let doc = "{\"coord\":{\"lon\":0.0,\"lat\":0.0},\
                \"weather\":[{\"id\":800,\"main\":\"Clear\",\"description\":\"clear sky\"}],\
                \"base\":\"b\",\"name\":\"N\",\
                \"wind\":{\"speed\":1.5,\"deg\":10},\
                \"main\":{\"temp\":1.0,\"feels_like\":1.0,\"temp_min\":1.0,\
                \"temp_max\":1.0,\"pressure\":1.0,\"humidity\":1.0}}";
    assert_eq!(
        parse_report(doc),
        Err(ReportError::Field(String::from("weather.icon")))
    );
}

#[test]
fn weather_not_an_array_fails() {
    let doc = "{\"coord\":{\"lon\":0.0,\"lat\":0.0},\
                \"weather\":{},\"base\":\"b\",\"name\":\"N\",\
                \"wind\":{\"speed\":1.5,\"deg\":10},\
                \"main\":{\"temp\":1.0,\"feels_like\":1.0,\"temp_min\":1.0,\
                \"temp_max\":1.0,\"pressure\":1.0,\"humidity\":1.0}}";
    assert_eq!(
        parse_report(doc),
        Err(ReportError::Field(String::from("weather")))
    );
}

#[test]
fn mistyped_field_fails() {
    let doc = "{\"coord\":{\"lon\":2.35,\"lat\":48.85},\
                \"weather\":[],\"base\":\"stations\",\"name\":\"Paris\",\
                \"wind\":{\"speed\":3.6,\"deg\":160},\
                \"main\":{\"temp\":\"18.5\",\"feels_like\":17.9,\"temp_min\":15.0,\
                \"temp_max\":21.0,\"pressure\":1012.0,\"humidity\":72.0}}";
    assert_eq!(
        parse_report(doc),
        Err(ReportError::Field(String::from("main.temp")))
    );
}

#[test]
fn malformed_body_is_json_error() {
    let r = parse_report("{not json");
    match r {
        Err(ReportError::Json(_)) => {}
        other => panic!("expected a Json error, got {:?}", other),
    }
    let msg = parse_report("{not json").unwrap_err().message();
    assert!(msg.starts_with("invalid weather response: "));
}

#[test]
fn gust_absent_or_null_is_none() {
    let absent = "{\"coord\":{\"lon\":0.0,\"lat\":0.0},\
                   \"weather\":[],\"base\":\"b\",\"name\":\"N\",\
                   \"wind\":{\"speed\":1.5,\"deg\":10},\
                   \"main\":{\"temp\":1.0,\"feels_like\":1.0,\"temp_min\":1.0,\
                   \"temp_max\":1.0,\"pressure\":1.0,\"humidity\":1.0}}";
    assert_eq!(parse_report(absent).unwrap().wind.gust, None);
    let null = "{\"coord\":{\"lon\":0.0,\"lat\":0.0},\
                 \"weather\":[],\"base\":\"b\",\"name\":\"N\",\
                 \"wind\":{\"speed\":1.5,\"deg\":10,\"gust\":null},\
                 \"main\":{\"temp\":1.0,\"feels_like\":1.0,\"temp_min\":1.0,\
                 \"temp_max\":1.0,\"pressure\":1.0,\"humidity\":1.0}}";
    assert_eq!(parse_report(null).unwrap().wind.gust, None);
}

#[test]
fn weather_list_keeps_order() {
    let doc = "{\"coord\":{\"lon\":0.0,\"lat\":0.0},\
                \"weather\":[{\"id\":500,\"main\":\"Rain\",\"description\":\"light rain\",\"icon\":\"10d\"},\
                {\"id\":701,\"main\":\"Mist\",\"description\":\"mist\",\"icon\":\"50d\"}],\
                \"base\":\"b\",\"name\":\"N\",\
                \"wind\":{\"speed\":1.5,\"deg\":10},\
                \"main\":{\"temp\":1.0,\"feels_like\":1.0,\"temp_min\":1.0,\
                \"temp_max\":1.0,\"pressure\":1.0,\"humidity\":1.0}}";
    let r = parse_report(doc).unwrap();
    assert_eq!(r.weather.len(), 2);
    assert_eq!(r.weather[0].id, 500);
    assert_eq!(r.weather[1].main, "Mist");
}

#[test]
fn integer_out_of_range_fails() {
    let doc = "{\"coord\":{\"lon\":0.0,\"lat\":0.0},\
                \"weather\":[],\"base\":\"b\",\"name\":\"N\",\
                \"wind\":{\"speed\":1.5,\"deg\":3000000000},\
                \"main\":{\"temp\":1.0,\"feels_like\":1.0,\"temp_min\":1.0,\
                \"temp_max\":1.0,\"pressure\":1.0,\"humidity\":1.0}}";
    assert_eq!(
        parse_report(doc),
        Err(ReportError::Field(String::from("wind.deg")))
    );
}

#[test]
fn render_report_exact_lines() {
    let doc = sample_doc();
    let r = parse_report(&doc).unwrap();
    let lines = render_report(&r, &Units::Metric);
    assert_eq!(
        lines,
        vec![
            String::from(""),
            String::from("-----------------------"),
            String::from("Paris"),
            String::from("---"),
            String::from("Temperature : 18.5\u{b0}C"),
            String::from("Min : 15\u{b0}C   /  Max : 21\u{b0}C"),
            String::from("Feels like : 17.9\u{b0}C"),
            String::from("-----------------------"),
        ]
    );
}

#[test]
fn render_report_imperial_suffix() {
    let doc = sample_doc();
    let r = parse_report(&doc).unwrap();
    let lines = render_report(&r, &Units::Imperial);
    assert_eq!(lines[4], "Temperature : 18.5\u{b0}F");
}

#[test]
fn field_error_message_names_path() {
    let e = ReportError::Field(String::from("main.temp"));
    assert_eq!(e.message(), "missing or mistyped field: main.temp");
}

#[test]
fn str_eq_compares_contents() {
    assert!(str_eq("abc", "abc"));
    assert!(!str_eq("abc", "abd"));
    assert!(!str_eq("abc", "abcd"));
    assert!(str_eq("", ""));
}
