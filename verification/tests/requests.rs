use gemini::client::vertex::ModelString;
use gemini::gemini_types;
use gemini::region::eu_west1;
use gemini::schema::{convert_to_value, JsonValue};
use gemini::value::{Kind, Value};
use gemini::vertex_types::part::Data;
use gemini::vertex_types::{
    Blob, Candidate, Content, GenerateContentRequest, GenerateContentResponse, GenerationConfig,
    Part,
};

#[test]
fn model_names() {
    let ms = ModelString::for_model("my-proj", "europe-west1", "gemini-2.5-flash-lite");
    assert_eq!(
        ms.0,
        "projects/my-proj/locations/europe-west1/publishers/google/models/gemini-2.5-flash-lite"
    );
    let r = GenerateContentRequest::default().model("my-proj", "europe-west1", "gemini-2.5-flash-lite");
    assert_eq!(r.model, ms.0);
    let r = GenerateContentRequest::default().model_string(ms);
    assert_eq!(r.model, "projects/my-proj/locations/europe-west1/publishers/google/models/gemini-2.5-flash-lite");
    let region = eu_west1();
    assert_eq!(region.0, "europe-west1");
    assert_eq!(region.1, "https://europe-west1-aiplatform.googleapis.com:443");
}

#[test]
fn content_builders() {
    let c = Content::user().with_text("Why is the sky blue?".to_string()).with_png(vec![1, 2]);
    assert_eq!(c.role, "user");
    assert_eq!(c.parts.len(), 2);
    match &c.parts[0].data {
        Some(Data::Text(t)) => assert_eq!(t, "Why is the sky blue?"),
        other => panic!("{other:?}"),
    }
    match &c.parts[1].data {
        Some(Data::InlineData(b)) => {
            assert_eq!(b.mime_type, "image/png");
            assert_eq!(b.data, vec![1, 2]);
        },
        other => panic!("{other:?}"),
    }
    assert!(!c.parts[1].thought);
    assert!(c.parts[1].thought_signature.is_empty());
    assert_eq!(Content::model().role, "model");
    assert_eq!(Content::new(vec![]).role, "user");
    let p: Part = "hi".into();
    assert!(matches!(p.data, Some(Data::Text(ref t)) if t == "hi"));
    let p: Part = Blob { mime_type: "image/webp".to_string(), data: vec![9] }.into();
    assert!(matches!(p.data, Some(Data::InlineData(_))));
    let c = Content::user().with_jpeg(vec![]).with_webp(vec![]).with_heic(vec![]).with_heif(vec![]);
    let mimes: Vec<String> = c
        .parts
        .iter()
        .map(|p| match &p.data {
            Some(Data::InlineData(b)) => b.mime_type.clone(),
            _ => String::new(),
        })
        .collect();
    assert_eq!(mimes, vec!["image/jpeg", "image/webp", "image/heic", "image/heif"]);
}

#[test]
fn request_builders() {
    let r = GenerateContentRequest::default()
        .with_content(Content::user().with_text("a".to_string()))
        .with_content(Content::model())
        .with_system_instruction(Content::user().with_text("be brief".to_string()))
        .generation_config(GenerationConfig::default().with_json_schema(Value { kind: None }));
    assert_eq!(r.contents.len(), 2);
    assert_eq!(r.contents[1].role, "model");
    assert!(r.system_instruction.is_some());
    let cfg = r.generation_config.unwrap();
    assert_eq!(cfg.response_mime_type, "application/json");
    assert!(cfg.response_json_schema.is_some());
    let g = gemini_types::GenerationConfig::default().with_json_schema(Value { kind: None });
    assert!(g.response_json_schema_ordered.is_some());
}

#[test]
fn first_text_of_response() {
    let resp = GenerateContentResponse {
        candidates: vec![
            Candidate { content: None },
            Candidate { content: Some(Content::model().with_jpeg(vec![1])) },
            Candidate {
                content: Some(
                    Content::model().with_data(Blob { mime_type: String::new(), data: vec![] })
                        .with_text("{\"title\":\"Dune\"}".to_string())
                        .with_text("second".to_string()),
                ),
            },
        ],
    };
    assert_eq!(resp.first_text(), Some("{\"title\":\"Dune\"}".to_string()));
    assert_eq!(GenerateContentResponse { candidates: vec![] }.first_text(), None);
}

#[test]
fn json_schema_becomes_protobuf_value() {
    let j = JsonValue::Object(vec![
        ("type".to_string(), JsonValue::String("object".to_string())),
        ("n".to_string(), JsonValue::Number(Some(2.5f64.to_bits()))),
        ("list".to_string(), JsonValue::Array(vec![JsonValue::Bool(true), JsonValue::Null])),
        ("big".to_string(), JsonValue::Number(None)),
    ]);
    let v: Value = j.into();
    let fields = match v.kind {
        Some(Kind::StructValue(s)) => s.fields,
        other => panic!("{other:?}"),
    };
    assert_eq!(fields.len(), 4);
    assert_eq!(fields[0].0, "type");
    assert!(matches!(&fields[0].1.kind, Some(Kind::StringValue(s)) if s == "object"));
    assert!(matches!(fields[1].1.kind, Some(Kind::NumberValue(b)) if f64::from_bits(b) == 2.5));
    match &fields[2].1.kind {
        Some(Kind::ListValue(l)) => {
            assert!(matches!(l.values[0].kind, Some(Kind::BoolValue(true))));
            assert!(matches!(l.values[1].kind, Some(Kind::NullValue(0))));
        },
        other => panic!("{other:?}"),
    }
    assert!(fields[3].1.kind.is_none());
}

#[test]
fn nested_objects_convert_member_by_member() {
    let inner = JsonValue::Object(vec![("a".to_string(), JsonValue::Bool(false))]);
    let j = JsonValue::Array(vec![inner, JsonValue::String("s".to_string())]);
    let v = convert_to_value(&j);
    let values = match v.kind {
        Some(Kind::ListValue(l)) => l.values,
        other => panic!("{other:?}"),
    };
    assert_eq!(values.len(), 2);
    match &values[0].kind {
        Some(Kind::StructValue(s)) => {
            assert_eq!(s.fields.len(), 1);
            assert_eq!(s.fields[0].0, "a");
            assert!(matches!(s.fields[0].1.kind, Some(Kind::BoolValue(false))));
        },
        other => panic!("{other:?}"),
    }
    assert!(matches!(&values[1].kind, Some(Kind::StringValue(t)) if t == "s"));
    assert!(matches!(convert_to_value(&JsonValue::Null).kind, Some(Kind::NullValue(0))));
}
