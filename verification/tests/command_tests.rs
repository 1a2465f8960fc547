use viper_client::command::CommandKind;
use viper_client::command::TemplateStore;
use viper_client::command::find_first;
use viper_client::command::placeholder_bytes;
use viper_client::command::render;
use viper_client::command::render_authentication;
use viper_client::command::render_config;
use viper_client::command::substitute_token;
use viper_client::error::ViperError;

const TEMPLATE: &[u8] = b"{\"user-token\":\"USER-TOKEN\"}";

#[test]
fn placeholder_is_user_token() {
    assert_eq!(placeholder_bytes(), b"USER-TOKEN".to_vec());
}

#[test]
fn authenticate_substitutes_token_verbatim() {
    let store = TemplateStore { template: Some(TEMPLATE.to_vec()) };
    let payload = render_authentication(&store, "abc123").unwrap();
    assert_eq!(payload, b"{\"user-token\":\"abc123\"}".to_vec());
}

#[test]
fn substituted_length_is_template_plus_token_minus_placeholder() {
    let store = TemplateStore { template: Some(TEMPLATE.to_vec()) };
    let token = "abc123";
    let payload = render_authentication(&store, token).unwrap();
    assert_eq!(
        payload.len(),
        TEMPLATE.len() + token.len() - b"USER-TOKEN".len()
    );
}

#[test]
fn missing_template_fails() {
    let store = TemplateStore { template: None };
    assert_eq!(
        render_authentication(&store, "abc123"),
        Err(ViperError::TemplateMissing)
    );
}

#[test]
fn template_without_placeholder_fails() {
    let store = TemplateStore { template: Some(b"{\"user-token\":\"fixed\"}".to_vec()) };
    assert_eq!(
        render_authentication(&store, "abc123"),
        Err(ViperError::TemplateMissing)
    );
}

#[test]
fn non_utf8_substitution_fails_with_encoding_error() {
    let r = substitute_token(TEMPLATE, &[0xff, 0xfe]);
    assert_eq!(r, Err(ViperError::EncodingError));
}

#[test]
fn substitution_replaces_first_occurrence_only() {
    let template = b"USER-TOKEN and USER-TOKEN";
    let payload = substitute_token(template, b"t").unwrap();
    assert_eq!(payload, b"t and USER-TOKEN".to_vec());
}

#[test]
fn empty_token_just_removes_the_placeholder() {
    let store = TemplateStore { template: Some(TEMPLATE.to_vec()) };
    let payload = render_authentication(&store, "").unwrap();
    assert_eq!(payload, b"{\"user-token\":\"\"}".to_vec());
    assert_eq!(payload.len(), TEMPLATE.len() - b"USER-TOKEN".len());
}

#[test]
fn find_first_reports_earliest_match() {
    assert_eq!(find_first(b"abcabc", b"ca"), Some(2));
    assert_eq!(find_first(b"abcabc", b"abc"), Some(0));
    assert_eq!(find_first(b"abcabc", b"zz"), None);
    assert_eq!(find_first(b"ab", b"abc"), None);
}

#[test]
fn config_scope_renders_to_its_bytes() {
    assert_eq!(render_config("all"), b"all".to_vec());
    assert_eq!(render_config("vip"), b"vip".to_vec());
}

#[test]
fn render_dispatches_by_variant() {
    let store = TemplateStore { template: Some(TEMPLATE.to_vec()) };
    let auth = render(&CommandKind::UAUT("abc123".to_string()), &store).unwrap();
    assert_eq!(auth, b"{\"user-token\":\"abc123\"}".to_vec());
    let cfg = render(&CommandKind::UCFG("all".to_string()), &store).unwrap();
    assert_eq!(cfg, b"all".to_vec());
}
