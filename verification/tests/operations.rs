use ex_vl_convert::{
    binary_result, intake, string_result, vega_to_html, vega_to_jpeg, vega_to_pdf, vega_to_png,
    vega_to_svg, vegalite_to_html, vegalite_to_jpeg, vegalite_to_pdf, vegalite_to_png,
    vegalite_to_svg, vegalite_to_vega, vg_opts, vl_opts, Atom, Either, Format, Grammar, Renderer,
    Request, Scalar, StringResultTuple, VlVersion,
};

const VEGA_MESSAGE: &str = "Vega spec is not valid JSON";
const VEGA_LITE_MESSAGE: &str = "VegaLite spec is not valid JSON";
const MINIMAL_VEGA: &str = "{\"$schema\":\"https://vega.github.io/schema/vega/v5.json\",\"width\":10,\"height\":10}";

fn failure(message: &str) -> StringResultTuple {
    StringResultTuple { lhs: Atom::Failure, rhs: message.to_string() }
}

fn scalar(value: f32) -> Scalar {
    Scalar { bits: value.to_bits() }
}

fn bar_mark() -> serde_json::Value {
    let mut object = serde_json::Map::new();
    object.insert("mark".to_string(), serde_json::Value::String("bar".to_string()));
    serde_json::Value::Object(object)
}

fn invalid_texts() -> Vec<&'static str> {
    vec!["not json", "", "   ", "{", "{\"mark\":}", "{\"a\":1} trailing", "[1,2", "'single'", "{mark: 1}"]
}

#[test]
fn not_json_to_vega_svg_is_refused() {
    assert_eq!(vega_to_svg("not json".to_string()), Err(failure(VEGA_MESSAGE)));
}

#[test]
fn invalid_text_is_refused_by_every_vega_text_operation() {
    for text in invalid_texts() {
        assert_eq!(vega_to_svg(text.to_string()), Err(failure(VEGA_MESSAGE)), "{:?}", text);
        assert_eq!(
            vega_to_html(text.to_string(), true, "svg".to_string()),
            Err(failure(VEGA_MESSAGE)),
            "{:?}",
            text
        );
    }
}

#[test]
fn invalid_text_is_refused_by_every_vega_binary_operation() {
    for text in invalid_texts() {
        let expected = Err(Either::StringTuple(failure(VEGA_MESSAGE)));
        assert_eq!(vega_to_png(text.to_string(), scalar(1.0), scalar(72.0)), expected);
        assert_eq!(vega_to_jpeg(text.to_string(), scalar(1.0), 90), expected);
        assert_eq!(vega_to_pdf(text.to_string()), expected);
    }
}

#[test]
fn invalid_text_is_refused_by_every_vega_lite_text_operation() {
    for text in invalid_texts() {
        let expected = Err(failure(VEGA_LITE_MESSAGE));
        assert_eq!(vegalite_to_svg(text.to_string()), expected);
        assert_eq!(vegalite_to_html(text.to_string(), false, "canvas".to_string()), expected);
        assert_eq!(vegalite_to_vega(text.to_string()), expected);
    }
}

#[test]
fn invalid_text_is_refused_by_every_vega_lite_binary_operation() {
    for text in invalid_texts() {
        let expected = Err(Either::StringTuple(failure(VEGA_LITE_MESSAGE)));
        assert_eq!(vegalite_to_png(text.to_string(), scalar(2.0), scalar(144.0)), expected);
        assert_eq!(vegalite_to_jpeg(text.to_string(), scalar(2.0), 50), expected);
        assert_eq!(vegalite_to_pdf(text.to_string()), expected);
    }
}

#[test]
fn unknown_renderer_is_refused_for_vega() {
    assert_eq!(
        vega_to_html(MINIMAL_VEGA.to_string(), true, "webgl".to_string()),
        Err(failure("Invalid renderer provided"))
    );
}

#[test]
fn unknown_renderer_is_refused_for_vega_lite() {
    assert_eq!(
        vegalite_to_html("{\"mark\":\"bar\"}".to_string(), false, String::new()),
        Err(failure("Invalid renderer provided"))
    );
}

#[test]
fn invalid_text_is_reported_before_an_unknown_renderer() {
    assert_eq!(
        vega_to_html("not json".to_string(), true, "webgl".to_string()),
        Err(failure(VEGA_MESSAGE))
    );
    assert_eq!(
        vegalite_to_html("not json".to_string(), true, "webgl".to_string()),
        Err(failure(VEGA_LITE_MESSAGE))
    );
}

#[test]
fn incomplete_vega_lite_fragment_reaches_the_engine() {
    let step = vegalite_to_svg("{\"mark\":\"bar\"}".to_string());
    assert_eq!(
        step,
        Ok(Request {
            grammar: Grammar::VegaLite,
            format: Format::Svg,
            document: bar_mark(),
            config: vl_opts(),
        })
    );
    let engine_message = "Invalid specification {\"mark\":\"bar\"}";
    let result = string_result(Err(engine_message.to_string()));
    assert_eq!(result, failure(engine_message));
    assert_ne!(result.rhs, VEGA_LITE_MESSAGE);
}

#[test]
fn jpeg_quality_out_of_range_is_left_to_the_engine() {
    let step = vega_to_jpeg(MINIMAL_VEGA.to_string(), scalar(1.0), 150);
    let request = step.expect("quality is not judged locally");
    assert_eq!(request.grammar, Grammar::Vega);
    assert_eq!(request.format, Format::Jpeg);
    assert_eq!(request.config, vg_opts().with_jpeg(scalar(1.0), 150));
    assert_eq!(request.config.quality, Some(150));
    let result = binary_result(Err("JPEG quality must be between 0 and 100".to_string()));
    assert_eq!(
        result,
        Either::StringTuple(failure("JPEG quality must be between 0 and 100"))
    );
}

#[test]
fn intake_returns_the_parsed_document() {
    let document = intake(Grammar::VegaLite, " { \"mark\" : \"bar\" } ").unwrap();
    assert_eq!(document, bar_mark());
    assert_ne!(document, serde_json::Value::String(" { \"mark\" : \"bar\" } ".to_string()));
}

#[test]
fn intake_names_the_grammar_on_failure() {
    assert_eq!(intake(Grammar::Vega, "nope"), Err(failure(VEGA_MESSAGE)));
    assert_eq!(intake(Grammar::VegaLite, "nope"), Err(failure(VEGA_LITE_MESSAGE)));
}

#[test]
fn intake_accepts_any_json_value() {
    assert_eq!(intake(Grammar::Vega, "null"), Ok(serde_json::Value::Null));
    assert_eq!(intake(Grammar::Vega, "true"), Ok(serde_json::Value::Bool(true)));
    assert_eq!(intake(Grammar::Vega, "[]"), Ok(serde_json::Value::Array(Vec::new())));
    assert_eq!(intake(Grammar::Vega, "17"), Ok(serde_json::Value::from(17)));
}

#[test]
fn vega_requests_carry_document_and_options() {
    let document: serde_json::Value = serde_json::from_str(MINIMAL_VEGA).unwrap();
    assert_eq!(
        vega_to_svg(MINIMAL_VEGA.to_string()),
        Ok(Request {
            grammar: Grammar::Vega,
            format: Format::Svg,
            document: document.clone(),
            config: vg_opts(),
        })
    );
    assert_eq!(
        vega_to_html(MINIMAL_VEGA.to_string(), true, "hybrid".to_string()),
        Ok(Request {
            grammar: Grammar::Vega,
            format: Format::Html,
            document: document.clone(),
            config: vg_opts().with_html(true, Renderer::Hybrid),
        })
    );
    assert_eq!(
        vega_to_png(MINIMAL_VEGA.to_string(), scalar(2.0), scalar(144.0)),
        Ok(Request {
            grammar: Grammar::Vega,
            format: Format::Png,
            document: document.clone(),
            config: vg_opts().with_png(scalar(2.0), scalar(144.0)),
        })
    );
    assert_eq!(
        vega_to_jpeg(MINIMAL_VEGA.to_string(), scalar(0.5), 80),
        Ok(Request {
            grammar: Grammar::Vega,
            format: Format::Jpeg,
            document: document.clone(),
            config: vg_opts().with_jpeg(scalar(0.5), 80),
        })
    );
    assert_eq!(
        vega_to_pdf(MINIMAL_VEGA.to_string()),
        Ok(Request { grammar: Grammar::Vega, format: Format::Pdf, document, config: vg_opts() })
    );
}

#[test]
fn vega_lite_requests_carry_document_and_options() {
    let text = "{\"mark\":\"bar\"}";
    assert_eq!(
        vegalite_to_html(text.to_string(), false, "SVG".to_string()),
        Ok(Request {
            grammar: Grammar::VegaLite,
            format: Format::Html,
            document: bar_mark(),
            config: vl_opts().with_html(false, Renderer::Svg),
        })
    );
    assert_eq!(
        vegalite_to_png(text.to_string(), scalar(1.0), scalar(72.0)),
        Ok(Request {
            grammar: Grammar::VegaLite,
            format: Format::Png,
            document: bar_mark(),
            config: vl_opts().with_png(scalar(1.0), scalar(72.0)),
        })
    );
    assert_eq!(
        vegalite_to_jpeg(text.to_string(), scalar(1.0), 100),
        Ok(Request {
            grammar: Grammar::VegaLite,
            format: Format::Jpeg,
            document: bar_mark(),
            config: vl_opts().with_jpeg(scalar(1.0), 100),
        })
    );
    assert_eq!(
        vegalite_to_pdf(text.to_string()),
        Ok(Request {
            grammar: Grammar::VegaLite,
            format: Format::Pdf,
            document: bar_mark(),
            config: vl_opts(),
        })
    );
    assert_eq!(
        vegalite_to_vega(text.to_string()),
        Ok(Request {
            grammar: Grammar::VegaLite,
            format: Format::Vega,
            document: bar_mark(),
            config: vl_opts(),
        })
    );
}

#[test]
fn vega_lite_requests_use_the_default_release() {
    let request = vegalite_to_vega("{}".to_string()).unwrap();
    assert_eq!(request.config.vl_version, Some(VlVersion::V5_20));
    let vega = vega_to_svg("{}".to_string()).unwrap();
    assert_eq!(vega.config.vl_version, None);
}

#[test]
fn calls_do_not_depend_on_earlier_calls() {
    let first = vega_to_svg(MINIMAL_VEGA.to_string());
    let _ = vega_to_svg("not json".to_string());
    let _ = vega_to_html(MINIMAL_VEGA.to_string(), true, "nope".to_string());
    let second = vega_to_svg(MINIMAL_VEGA.to_string());
    assert_eq!(first, second);
}
