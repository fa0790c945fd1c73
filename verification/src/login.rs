//! The login form: what is read off the login page and what is sent back.

use vstd::prelude::*;
use crate::html::{select_first, selection};
use crate::requester::Config;

verus! {

/// The hidden fields that the login page carries and wants back.
#[derive(Debug)]
pub struct LoginFormHiddenFields {
    pub event_target: String,
    pub event_argument: String,
    pub viewstate: String,
    pub viewstate_generator: String,
    pub event_validation: String,
}

/// The fields of the login form that the page does not dictate.
#[derive(Debug)]
pub struct LoginFormInputFields {
    pub app_name: String,
    pub hf_token: String,
    pub hf_verifier: String,
    pub hf_code: String,
    pub hf_state: String,
    pub username: String,
    pub password: String,
    pub btn_login: String,
}

/// The login form as it is posted.
#[derive(Debug)]
pub struct LoginFormBody {
    pub hidden_fields: LoginFormHiddenFields,
    pub input_fields: LoginFormInputFields,
}

impl Clone for LoginFormHiddenFields {
    fn clone(&self) -> (r: Self)
        ensures
            r == *self,
    {
        Self {
            event_target: self.event_target.clone(),
            event_argument: self.event_argument.clone(),
            viewstate: self.viewstate.clone(),
            viewstate_generator: self.viewstate_generator.clone(),
            event_validation: self.event_validation.clone(),
        }
    }
}

impl Clone for LoginFormInputFields {
    fn clone(&self) -> (r: Self)
        ensures
            r == *self,
    {
        Self {
            app_name: self.app_name.clone(),
            hf_token: self.hf_token.clone(),
            hf_verifier: self.hf_verifier.clone(),
            hf_code: self.hf_code.clone(),
            hf_state: self.hf_state.clone(),
            username: self.username.clone(),
            password: self.password.clone(),
            btn_login: self.btn_login.clone(),
        }
    }
}

impl Clone for LoginFormBody {
    fn clone(&self) -> (r: Self)
        ensures
            r == *self,
    {
        Self { hidden_fields: self.hidden_fields.clone(), input_fields: self.input_fields.clone() }
    }
}

/// The attribute of an `input` element that holds its value.
pub open spec fn value_attribute() -> Seq<char> {
    "value"@
}

/// The value that a hidden field has in a page: the `value` of the first
/// element that the field's selector selects. It is empty where no element
/// is selected, and where the element has no `value`.
pub open spec fn field_value(html: Seq<char>, selector: Seq<char>) -> Seq<char> {
    selection(html, selector, value_attribute()).value_or_empty()
}

/// The value of the first element of the page that the selector selects,
/// empty where there is none.
pub fn get_field_value_attr(document: &str, selector: &str) -> (r: String)
    ensures
        r@ == field_value(document@, selector@),
{
    select_first(document, selector, "value").value_or_empty()
}

/// A hidden field that is not in the page reads as empty.
pub proof fn lemma_absent_field_is_empty(html: Seq<char>, selector: Seq<char>)
    requires
        selection(html, selector, value_attribute()) is NoMatch,
    ensures
        field_value(html, selector) == Seq::<char>::empty(),
{
}

impl LoginFormHiddenFields {
    /// The hidden fields with these values.
    pub fn new(
        event_target: String,
        event_argument: String,
        viewstate: String,
        viewstate_generator: String,
        event_validation: String,
    ) -> (r: Self)
        ensures
            r.event_target == event_target,
            r.event_argument == event_argument,
            r.viewstate == viewstate,
            r.viewstate_generator == viewstate_generator,
            r.event_validation == event_validation,
    {
        Self { event_target, event_argument, viewstate, viewstate_generator, event_validation }
    }

    /// The hidden fields as a login page carries them. Each is looked up by
    /// the name of its `input` element; one that the page lacks is empty.
    pub fn from_html(document: &str) -> (r: Self)
        ensures
            r.event_target@ == field_value(document@, "input[name='__EVENTTARGET']"@),
            r.event_argument@ == field_value(document@, "input[name='__EVENTARGUMENT']"@),
            r.viewstate@ == field_value(document@, "input[name='__VIEWSTATE']"@),
            r.viewstate_generator@ == field_value(
                document@,
                "input[name='__VIEWSTATEGENERATOR']"@,
            ),
            r.event_validation@ == field_value(document@, "input[name='__EVENTVALIDATION']"@),
    {
        let event_target = get_field_value_attr(document, "input[name='__EVENTTARGET']");
        let event_argument = get_field_value_attr(document, "input[name='__EVENTARGUMENT']");
        let viewstate = get_field_value_attr(document, "input[name='__VIEWSTATE']");
        let viewstate_generator = get_field_value_attr(
            document,
            "input[name='__VIEWSTATEGENERATOR']",
        );
        let event_validation = get_field_value_attr(document, "input[name='__EVENTVALIDATION']");
        LoginFormHiddenFields::new(
            event_target,
            event_argument,
            viewstate,
            viewstate_generator,
            event_validation,
        )
    }
}

impl LoginFormInputFields {
    /// The fields for these credentials. The others are fixed: the name of
    /// the application, four empty fields and the label of the login button.
    pub fn new(username: String, password: String) -> (r: Self)
        ensures
            r.app_name@ == "İTÜ/Portal"@,
            r.hf_token@ == Seq::<char>::empty(),
            r.hf_verifier@ == Seq::<char>::empty(),
            r.hf_code@ == Seq::<char>::empty(),
            r.hf_state@ == Seq::<char>::empty(),
            r.username == username,
            r.password == password,
            r.btn_login@ == "Giriş+/+Login"@,
    {
        Self {
            app_name: "İTÜ/Portal".to_owned(),
            hf_token: String::new(),
            hf_verifier: String::new(),
            hf_code: String::new(),
            hf_state: String::new(),
            username,
            password,
            btn_login: "Giriş+/+Login".to_owned(),
        }
    }

    /// The fields for the credentials of a configuration.
    pub fn from_config(config: Config) -> (r: Self)
        ensures
            r.app_name@ == "İTÜ/Portal"@,
            r.hf_token@ == Seq::<char>::empty(),
            r.hf_verifier@ == Seq::<char>::empty(),
            r.hf_code@ == Seq::<char>::empty(),
            r.hf_state@ == Seq::<char>::empty(),
            r.username == config.username,
            r.password == config.password,
            r.btn_login@ == "Giriş+/+Login"@,
    {
        Self::new(config.username, config.password)
    }
}

/// The form as name and value pairs, in the order in which they are posted.
pub open spec fn form_pairs(form: LoginFormBody) -> Seq<(Seq<char>, Seq<char>)> {
    seq![
        ("__EVENTTARGET"@, form.hidden_fields.event_target@),
        ("__EVENTARGUMENT"@, form.hidden_fields.event_argument@),
        ("__VIEWSTATE"@, form.hidden_fields.viewstate@),
        ("__VIEWSTATEGENERATOR"@, form.hidden_fields.viewstate_generator@),
        ("__EVENTVALIDATION"@, form.hidden_fields.event_validation@),
        ("ctl00$ContentPlaceHolder1$hfAppName"@, form.input_fields.app_name@),
        ("ctl00$ContentPlaceHolder1$hfToken"@, form.input_fields.hf_token@),
        ("ctl00$ContentPlaceHolder1$hfVerifier"@, form.input_fields.hf_verifier@),
        ("ctl00$ContentPlaceHolder1$hfCode"@, form.input_fields.hf_code@),
        ("ctl00$ContentPlaceHolder1$hfState"@, form.input_fields.hf_state@),
        ("ctl00$ContentPlaceHolder1$tbUserName"@, form.input_fields.username@),
        ("ctl00$ContentPlaceHolder1$tbPassword"@, form.input_fields.password@),
        ("ctl00$ContentPlaceHolder1$btnLogin"@, form.input_fields.btn_login@),
    ]
}

/// The form that answers a login page for these credentials, as name and
/// value pairs: the hidden fields as the page carries them, then the fixed
/// fields, the credentials and the login button.
pub open spec fn login_pairs(html: Seq<char>, username: Seq<char>, password: Seq<char>) -> Seq<
    (Seq<char>, Seq<char>),
> {
    seq![
        ("__EVENTTARGET"@, field_value(html, "input[name='__EVENTTARGET']"@)),
        ("__EVENTARGUMENT"@, field_value(html, "input[name='__EVENTARGUMENT']"@)),
        ("__VIEWSTATE"@, field_value(html, "input[name='__VIEWSTATE']"@)),
        ("__VIEWSTATEGENERATOR"@, field_value(html, "input[name='__VIEWSTATEGENERATOR']"@)),
        ("__EVENTVALIDATION"@, field_value(html, "input[name='__EVENTVALIDATION']"@)),
        ("ctl00$ContentPlaceHolder1$hfAppName"@, "İTÜ/Portal"@),
        ("ctl00$ContentPlaceHolder1$hfToken"@, Seq::empty()),
        ("ctl00$ContentPlaceHolder1$hfVerifier"@, Seq::empty()),
        ("ctl00$ContentPlaceHolder1$hfCode"@, Seq::empty()),
        ("ctl00$ContentPlaceHolder1$hfState"@, Seq::empty()),
        ("ctl00$ContentPlaceHolder1$tbUserName"@, username),
        ("ctl00$ContentPlaceHolder1$tbPassword"@, password),
        ("ctl00$ContentPlaceHolder1$btnLogin"@, "Giriş+/+Login"@),
    ]
}

impl LoginFormBody {
    /// The form made of these two groups of fields.
    pub fn new(hidden_fields: LoginFormHiddenFields, input_fields: LoginFormInputFields) -> (r:
        Self)
        ensures
            r.hidden_fields == hidden_fields,
            r.input_fields == input_fields,
    {
        Self { hidden_fields, input_fields }
    }

    /// The form as name and value pairs, in the order in which they are
    /// posted: the hidden fields first, then the others.
    pub fn to_pairs(&self) -> (r: Vec<(String, String)>)
        ensures
            r.deep_view() == form_pairs(*self),
    {
        let mut pairs: Vec<(String, String)> = Vec::new();
        pairs.push(("__EVENTTARGET".to_owned(), self.hidden_fields.event_target.clone()));
        pairs.push(("__EVENTARGUMENT".to_owned(), self.hidden_fields.event_argument.clone()));
        pairs.push(("__VIEWSTATE".to_owned(), self.hidden_fields.viewstate.clone()));
        pairs.push(
            ("__VIEWSTATEGENERATOR".to_owned(), self.hidden_fields.viewstate_generator.clone()),
        );
        pairs.push(("__EVENTVALIDATION".to_owned(), self.hidden_fields.event_validation.clone()));
        pairs.push(
            ("ctl00$ContentPlaceHolder1$hfAppName".to_owned(), self.input_fields.app_name.clone()),
        );
        pairs.push(
            ("ctl00$ContentPlaceHolder1$hfToken".to_owned(), self.input_fields.hf_token.clone()),
        );
        pairs.push(
            (
                "ctl00$ContentPlaceHolder1$hfVerifier".to_owned(),
                self.input_fields.hf_verifier.clone(),
            ),
        );
        pairs.push(
            ("ctl00$ContentPlaceHolder1$hfCode".to_owned(), self.input_fields.hf_code.clone()),
        );
        pairs.push(
            ("ctl00$ContentPlaceHolder1$hfState".to_owned(), self.input_fields.hf_state.clone()),
        );
        pairs.push(
            ("ctl00$ContentPlaceHolder1$tbUserName".to_owned(), self.input_fields.username.clone()),
        );
        pairs.push(
            ("ctl00$ContentPlaceHolder1$tbPassword".to_owned(), self.input_fields.password.clone()),
        );
        pairs.push(
            ("ctl00$ContentPlaceHolder1$btnLogin".to_owned(), self.input_fields.btn_login.clone()),
        );
        assert(pairs.deep_view() =~= form_pairs(*self));
        pairs
    }
}

} // verus!
