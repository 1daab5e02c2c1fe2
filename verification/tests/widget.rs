use singularity::handler::{handle_request, ContentType};
use singularity::render::render_widget;
use singularity::weather::{FetchError, WeatherObservation};

fn bengaluru_observation() -> WeatherObservation {
    WeatherObservation {
        place: String::from("Bengaluru"),
        temperature_c: 24,
        condition: String::from("Clear"),
        humidity_pct: 60,
    }
}

#[test]
fn render_is_deterministic() {
    let obs = bengaluru_observation();
    let first = render_widget(&obs);
    let second = render_widget(&obs);
    assert_eq!(first, second);
}

#[test]
fn render_exact_output() {
    let obs = bengaluru_observation();
    let html = render_widget(&obs);
    let expected = "<div class=\"weather-widget\"><h2>Weather in Bengaluru</h2>\
<p>Temperature: 24&#176;C</p><p>Condition: Clear</p>\
<p>Humidity: 60%</p></div>";
    assert_eq!(html, expected);
}

#[test]
fn rendered_widget_contains_observation_fields() {
    let obs = bengaluru_observation();
    let html = render_widget(&obs);
    assert!(html.contains("24"));
    assert!(html.contains("Clear"));
    assert!(html.contains("Bengaluru"));
    assert!(html.contains("60"));
}

#[test]
fn empty_condition_renders_placeholder() {
    let obs = WeatherObservation {
        place: String::from("Bengaluru"),
        temperature_c: 24,
        condition: String::new(),
        humidity_pct: 60,
    };
    let html = render_widget(&obs);
    assert!(html.contains("Condition: N/A"));
}

#[test]
fn negative_temperature_renders_sign() {
    let obs = WeatherObservation {
        place: String::from("Oymyakon"),
        temperature_c: -51,
        condition: String::from("Snow"),
        humidity_pct: 70,
    };
    let html = render_widget(&obs);
    assert!(html.contains("Temperature: -51&#176;C"));
}

#[test]
fn success_reply_is_rendered_widget() {
    let obs = bengaluru_observation();
    let expected_body = render_widget(&obs);
    let reply = handle_request(Ok(obs));
    assert_eq!(reply.status, 200);
    assert_eq!(reply.content_type, ContentType::Html);
    assert_eq!(reply.body, expected_body);
}

#[test]
fn failure_reply_carries_description() {
    let reply = handle_request(Err(FetchError::Unreachable(String::from("upstream timeout"))));
    assert_eq!(reply.status, 500);
    assert_eq!(reply.content_type, ContentType::PlainText);
    assert!(reply.body.contains("upstream timeout"));
    assert_eq!(reply.body, "Error: weather source unreachable: upstream timeout");
}

#[test]
fn each_error_variant_describes_itself() {
    let unreachable = FetchError::Unreachable(String::from("connection refused"));
    assert_eq!(
        unreachable.description(),
        "weather source unreachable: connection refused"
    );
    let malformed = FetchError::MalformedData(String::from("missing temperature"));
    assert_eq!(
        malformed.description(),
        "weather source returned malformed data: missing temperature"
    );
    let unknown = FetchError::UnrecognizedPlace(String::from("Atlantis"));
    assert_eq!(unknown.description(), "unrecognized place: Atlantis");
}

#[test]
fn each_error_variant_yields_a_500_reply() {
    let errors = vec![
        FetchError::Unreachable(String::from("a")),
        FetchError::MalformedData(String::from("b")),
        FetchError::UnrecognizedPlace(String::from("c")),
    ];
    for e in errors {
        let description = e.description();
        let reply = handle_request(Err(e));
        assert_eq!(reply.status, 500);
        assert_eq!(reply.content_type, ContentType::PlainText);
        assert!(reply.body.contains(&description));
    }
}

#[test]
fn many_requests_get_independent_paired_replies() {
    let mut expected: Vec<String> = Vec::new();
    let mut got: Vec<String> = Vec::new();
    for i in 0..50 {
        let obs = WeatherObservation {
            place: format!("City{}", i),
            temperature_c: i,
            condition: format!("Condition{}", i),
            humidity_pct: (i as u8) + 1,
        };
        expected.push(render_widget(&obs));
        let reply = handle_request(Ok(obs));
        assert_eq!(reply.status, 200);
        got.push(reply.body);
    }
    for i in 0..50 {
        assert_eq!(got[i], expected[i]);
        assert!(got[i].contains(&format!("Weather in City{}<", i)));
        for j in 0..50 {
            if i != j {
                assert!(!got[i].contains(&format!("Weather in City{}<", j)));
            }
        }
    }
}
