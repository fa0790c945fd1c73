use crn_picker::html::Selection;
use crn_picker::login::{
    get_field_value_attr, LoginFormBody, LoginFormHiddenFields, LoginFormInputFields,
};
use crn_picker::requester::{Config, Requester};
use crn_picker::schedule::Instant;

const PAGE: &str = "<!DOCTYPE html><html><head><title>Giriş</title></head><body>
<form method=\"post\" action=\"./Login.aspx\" id=\"form1\">
<input type=\"hidden\" name=\"__EVENTTARGET\" id=\"__EVENTTARGET\" value=\"\" />
<input type=\"hidden\" name=\"__EVENTARGUMENT\" id=\"__EVENTARGUMENT\" value=\"arg\" />
<input type=\"hidden\" name=\"__VIEWSTATE\" id=\"__VIEWSTATE\" value=\"/wEPDwUK+Mjk=&amp;x\" />
<input type=\"hidden\" name=\"__VIEWSTATEGENERATOR\" id=\"__VIEWSTATEGENERATOR\" value=\"C2EE9ABB\" />
<input type=\"hidden\" name=\"__EVENTVALIDATION\" id=\"__EVENTVALIDATION\" value=\"/wEdAAU=\" />
<input type=\"hidden\" name=\"__EVENTVALIDATION\" value=\"second\" />
<input name=\"ctl00$ContentPlaceHolder1$tbUserName\" type=\"text\" value=\"typed\" />
</form></body></html>";

fn pair(name: &str, value: &str) -> (String, String) {
    (name.to_string(), value.to_string())
}

fn config() -> Config {
    Config::new(
        "user".to_string(),
        "p&ss".to_string(),
        Instant::new(0, 0).unwrap(),
        vec![],
        vec![],
    )
}

#[test]
fn hidden_fields_are_read_from_the_page() {
    let fields = LoginFormHiddenFields::from_html(PAGE);
    assert_eq!(fields.event_target, "");
    assert_eq!(fields.event_argument, "arg");
    assert_eq!(fields.viewstate, "/wEPDwUK+Mjk=&x");
    assert_eq!(fields.viewstate_generator, "C2EE9ABB");
    assert_eq!(fields.event_validation, "/wEdAAU=");
}

#[test]
fn missing_hidden_fields_are_empty() {
    for page in ["", "<html><body><p>no form here</p></body></html>", "not html at all <<<"] {
        let fields = LoginFormHiddenFields::from_html(page);
        assert_eq!(fields.event_target, "");
        assert_eq!(fields.event_argument, "");
        assert_eq!(fields.viewstate, "");
        assert_eq!(fields.viewstate_generator, "");
        assert_eq!(fields.event_validation, "");
    }
}

#[test]
fn one_missing_hidden_field_leaves_the_others() {
    let page = "<form><input name=\"__VIEWSTATE\" value=\"state\">
        <input name=\"__EVENTVALIDATION\"><textarea name=\"__EVENTTARGET\" value=\"no input\"></textarea>
        <input name=\"__eventargument\" value=\"other case\"></form>";
    let fields = LoginFormHiddenFields::from_html(page);
    assert_eq!(fields.event_target, "");
    assert_eq!(fields.event_argument, "");
    assert_eq!(fields.viewstate, "state");
    assert_eq!(fields.viewstate_generator, "");
    assert_eq!(fields.event_validation, "");
}

#[test]
fn a_field_is_the_value_of_the_first_selected_element() {
    assert_eq!(get_field_value_attr(PAGE, "input[name='__EVENTVALIDATION']"), "/wEdAAU=");
    assert_eq!(get_field_value_attr(PAGE, "input[type='text']"), "typed");
    assert_eq!(get_field_value_attr(PAGE, "form"), "");
    assert_eq!(get_field_value_attr(PAGE, "input[name='absent']"), "");
    assert_eq!(get_field_value_attr(PAGE, "input[name="), "");
    assert_eq!(get_field_value_attr(PAGE, ""), "");
}

#[test]
fn input_fields_carry_the_fixed_values() {
    let fields = LoginFormInputFields::new("user".to_string(), "secret".to_string());
    assert_eq!(fields.app_name, "İTÜ/Portal");
    assert_eq!(fields.hf_token, "");
    assert_eq!(fields.hf_verifier, "");
    assert_eq!(fields.hf_code, "");
    assert_eq!(fields.hf_state, "");
    assert_eq!(fields.username, "user");
    assert_eq!(fields.password, "secret");
    assert_eq!(fields.btn_login, "Giriş+/+Login");
    let from_config = LoginFormInputFields::from_config(config());
    assert_eq!(from_config.username, "user");
    assert_eq!(from_config.password, "p&ss");
    assert_eq!(from_config.app_name, "İTÜ/Portal");
    assert_eq!(from_config.btn_login, "Giriş+/+Login");
}

#[test]
fn hidden_fields_keep_what_they_are_given() {
    let fields = LoginFormHiddenFields::new(
        "a".to_string(),
        "b".to_string(),
        "c".to_string(),
        "d".to_string(),
        "e".to_string(),
    );
    assert_eq!(fields.event_target, "a");
    assert_eq!(fields.event_argument, "b");
    assert_eq!(fields.viewstate, "c");
    assert_eq!(fields.viewstate_generator, "d");
    assert_eq!(fields.event_validation, "e");
}

#[test]
fn the_form_is_posted_as_thirteen_pairs_in_order() {
    let form = LoginFormBody::new(
        LoginFormHiddenFields::new(
            "a".to_string(),
            "b".to_string(),
            "c".to_string(),
            "d".to_string(),
            "e".to_string(),
        ),
        LoginFormInputFields::new("user".to_string(), "secret".to_string()),
    );
    assert_eq!(
        form.to_pairs(),
        vec![
            pair("__EVENTTARGET", "a"),
            pair("__EVENTARGUMENT", "b"),
            pair("__VIEWSTATE", "c"),
            pair("__VIEWSTATEGENERATOR", "d"),
            pair("__EVENTVALIDATION", "e"),
            pair("ctl00$ContentPlaceHolder1$hfAppName", "İTÜ/Portal"),
            pair("ctl00$ContentPlaceHolder1$hfToken", ""),
            pair("ctl00$ContentPlaceHolder1$hfVerifier", ""),
            pair("ctl00$ContentPlaceHolder1$hfCode", ""),
            pair("ctl00$ContentPlaceHolder1$hfState", ""),
            pair("ctl00$ContentPlaceHolder1$tbUserName", "user"),
            pair("ctl00$ContentPlaceHolder1$tbPassword", "secret"),
            pair("ctl00$ContentPlaceHolder1$btnLogin", "Giriş+/+Login"),
        ]
    );
}

#[test]
fn the_login_form_answers_the_page() {
    let form = Requester::build_login_form(PAGE, config());
    let pairs = form.to_pairs();
    assert_eq!(pairs.len(), 13);
    assert_eq!(pairs[0], pair("__EVENTTARGET", ""));
    assert_eq!(pairs[1], pair("__EVENTARGUMENT", "arg"));
    assert_eq!(pairs[2], pair("__VIEWSTATE", "/wEPDwUK+Mjk=&x"));
    assert_eq!(pairs[3], pair("__VIEWSTATEGENERATOR", "C2EE9ABB"));
    assert_eq!(pairs[4], pair("__EVENTVALIDATION", "/wEdAAU="));
    assert_eq!(pairs[10], pair("ctl00$ContentPlaceHolder1$tbUserName", "user"));
    assert_eq!(pairs[11], pair("ctl00$ContentPlaceHolder1$tbPassword", "p&ss"));
}

#[test]
fn a_selection_gives_its_value_or_nothing() {
    assert_eq!(Selection::Match(Some("v".to_string())).value_or_empty(), "v");
    assert_eq!(Selection::Match(Some(String::new())).value_or_empty(), "");
    assert_eq!(Selection::Match(None).value_or_empty(), "");
    assert_eq!(Selection::NoMatch.value_or_empty(), "");
    assert_eq!(Selection::Invalid.value_or_empty(), "");
}
