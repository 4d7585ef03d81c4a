use datetime_format::BodyFormat;
use datetime_format::ConfigFormat;
use datetime_format::RestResponse;
use datetime_format::config_format_from_content_type;

struct PlainBytes(Vec<u8>);

impl RestResponse for PlainBytes {
    fn format(&self, _body_format: BodyFormat) -> Result<Vec<u8>, ()> {
        Ok(self.0.clone())
    }
}

struct Unserializable;

impl RestResponse for Unserializable {
    fn format(&self, _body_format: BodyFormat) -> Result<Vec<u8>, ()> {
        Err(())
    }
}

#[test]
fn test_body_format_names() {
    assert_eq!(BodyFormat::Json.as_str(), "json");
    assert_eq!(BodyFormat::PrettyJson.as_str(), "pretty_json");
    assert_eq!(BodyFormat::default(), BodyFormat::PrettyJson);
}

#[test]
fn test_result_to_vec_formats_either_side() {
    let ok: Result<PlainBytes, PlainBytes> = Ok(PlainBytes(b"value".to_vec()));
    assert_eq!(BodyFormat::Json.result_to_vec(&ok).unwrap(), b"value".to_vec());
    let err: Result<PlainBytes, PlainBytes> = Err(PlainBytes(b"error".to_vec()));
    assert_eq!(BodyFormat::Json.result_to_vec(&err).unwrap(), b"error".to_vec());
    let broken: Result<Unserializable, Unserializable> = Ok(Unserializable);
    assert!(BodyFormat::PrettyJson.result_to_vec(&broken).is_err());
}

#[test]
fn test_config_format_from_content_type() {
    assert_eq!(config_format_from_content_type(None), Some(ConfigFormat::Json));
    assert_eq!(config_format_from_content_type(Some("json")), Some(ConfigFormat::Json));
    assert_eq!(config_format_from_content_type(Some("toml")), Some(ConfigFormat::Toml));
    assert_eq!(config_format_from_content_type(Some("yaml")), Some(ConfigFormat::Yaml));
    assert_eq!(config_format_from_content_type(Some("xml")), None);
}
