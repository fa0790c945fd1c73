use crn_picker::course::{
    CourseSelectionRequestBody, CourseSelectionResponseBody, CrnAddResult, CrnDropResult,
    DecodeError, KnownResultCode, ResultCode, ResultData, UnknownResultCode,
};
use crn_picker::json::Json;
use crn_picker::requester::Config;
use crn_picker::schedule::Instant;

const ALL_CODES: [(&str, KnownResultCode, &str); 30] = [
    ("successResult", KnownResultCode::SuccessResult, "İşlem başarıyla tamamlandı."),
    ("errorResult", KnownResultCode::GenericError1, "Operasyon tamamlanamadı."),
    ("None", KnownResultCode::NoneResult, "Operasyon tamamlanamadı."),
    ("error", KnownResultCode::GenericError2, "Bir hata meydana geldi."),
    ("VAL01", KnownResultCode::GenericError3, "Bir problemden dolayı alınamadı"),
    ("VAL02", KnownResultCode::TimeBlock1, "Kayıt zaman engelinden dolayı alınamadı"),
    (
        "VAL03",
        KnownResultCode::AlreadyAddedThisTerm,
        "Bu dönem zaten alındığından dolayı tekrar alınmadı.",
    ),
    (
        "VAL04",
        KnownResultCode::NotInCoursePlan,
        "Ders planında yer almadığından dolayı alınamadı.",
    ),
    (
        "VAL05",
        KnownResultCode::OverMaximumCreditLimit,
        "Dönemlik maksimum kredi sınırını aştığından dolayı alınamadı.",
    ),
    (
        "VAL06",
        KnownResultCode::InsufficientQuota1,
        "Kontenjan yetersizliğinden dolayı alınamadı.",
    ),
    (
        "VAL07",
        KnownResultCode::PassedBeforeAA,
        "Daha önce AA notuyla verildiğinden dolayı alınamadı.",
    ),
    (
        "VAL08",
        KnownResultCode::WrongDegreeProgram,
        "Program şartını sağlamadığından dolayı alınamadı.",
    ),
    (
        "VAL09",
        KnownResultCode::CourseConflict,
        "Başka bir dersle çakıştığından dolayı alınamadı.",
    ),
    (
        "VAL10",
        KnownResultCode::CourseNotRegisteredNoOp,
        "Derse kayıtlı olmadığınızdan dolayı hiç bir işlem yapılmadı.",
    ),
    ("VAL11", KnownResultCode::RequirementsNotMet, "Önşartlardan dolayı alınamadı."),
    (
        "VAL12",
        KnownResultCode::CourseNotOpened,
        "Şu anki dönemde hiç açılmadığından dolayı alınamadı.",
    ),
    (
        "VAL13",
        KnownResultCode::TemporarilyBlocked,
        "Geçici olarak engellenmiş olması sebebiyle alınamadı.",
    ),
    ("VAL14", KnownResultCode::SystemNoAnswer, "Sistem geçici olarak yanıt vermiyor."),
    ("VAL15", KnownResultCode::Max12Crn, "Maksimum 12 CRN alabilirsiniz,"),
    (
        "VAL16",
        KnownResultCode::ProcessOngoing,
        "Aktif bir işleminiz devam ettiğinden dolayı işlem yapılmadı.",
    ),
    ("VAL18", KnownResultCode::Blocked, "Engellendiğinden dolayı alınamadı."),
    (
        "VAL19",
        KnownResultCode::CanNotTakeAssociateCourse,
        "Önlisans dersi olduğundan dolayı alınamadı.",
    ),
    (
        "VAL20",
        KnownResultCode::MustHaveAtLeastOneCourse,
        "Dönem başına sadece 1 ders bırakabilirsiniz.",
    ),
    ("CRNListEmpty", KnownResultCode::CrnListEmpty, "CRN listesi boş göründüğünden alınamadı."),
    ("CRNNotFound", KnownResultCode::CrnNotFound, "CRN bulunamadığından dolayı alınamadı."),
    ("ERRLoad", KnownResultCode::ErrorLoad, "Sistem geçici olarak yanıt vermiyor."),
    (
        "NULLParam-CheckOgrenciKayitZamaniKontrolu",
        KnownResultCode::TimeBlock2,
        "Kayıt zaman engelinden dolayı alınamadı",
    ),
    (
        "Ekleme İşlemi Başarılı",
        KnownResultCode::SuccessfullyAdded,
        "Ekleme işlemi başarıyla tamamlandı.",
    ),
    (
        "Kontenjan Dolu",
        KnownResultCode::InsufficientQuota2,
        "Kontenjan yetersizliğinden dolayı alınamadı.",
    ),
    (
        "Silme İşlemi Başarılı",
        KnownResultCode::SuccessfullyDropped,
        "Silme işlemi başarıyla tamamlandı.",
    ),
];

fn strings(items: &[&str]) -> Vec<String> {
    items.iter().map(|item| item.to_string()).collect()
}

fn decoded(body: &str) -> CourseSelectionResponseBody {
    CourseSelectionResponseBody::from_slice(body.as_bytes()).expect("a response")
}

fn entry(code: &str) -> String {
    format!(
        "{{\"crn\":\"20001\",\"operationFinished\":false,\"statusCode\":0,\"resultCode\":{}}}",
        code
    )
}

fn code_text(code: &str) -> String {
    let body = format!("{{\"ecrnResultList\":[{}],\"scrnResultList\":[]}}", entry(code));
    decoded(&body).ecrn_result_list[0].result_code.to_string()
}

#[test]
fn every_known_code_has_its_name_and_description() {
    for (name, known, description) in ALL_CODES {
        assert_eq!(known.code(), name);
        assert_eq!(known.description(), description);
        assert_eq!(KnownResultCode::from_code(name), Some(known));
    }
}

#[test]
fn known_codes_are_told_apart() {
    for (i, (first, _, _)) in ALL_CODES.iter().enumerate() {
        for (k, (second, _, _)) in ALL_CODES.iter().enumerate() {
            assert_eq!(first == second, i == k);
        }
    }
}

#[test]
fn every_code_string_is_classified() {
    for (name, known, _) in ALL_CODES {
        assert!(matches!(ResultCode::from_code(name), ResultCode::Known(k) if k == known));
    }
    for other in ["", "val06", "VAL06 ", "VAL17", "VAL21", "XYZ_NEW", "none", "Kontenjan dolu"] {
        assert_eq!(KnownResultCode::from_code(other), None);
        match ResultCode::from_code(other) {
            ResultCode::Unknown(UnknownResultCode(Json::Text(kept))) => assert_eq!(kept, other),
            result => panic!("{:?}", result),
        }
    }
}

#[test]
fn quota_code_renders_with_its_description() {
    assert_eq!(code_text("\"VAL06\""), "Kontenjan yetersizliğinden dolayı alınamadı.");
    assert_eq!(code_text("\"Kontenjan Dolu\""), "Kontenjan yetersizliğinden dolayı alınamadı.");
}

#[test]
fn unmodeled_code_renders_as_unknown_with_its_value() {
    assert_eq!(code_text("\"XYZ_NEW\""), "Bilinmeyen Sonuç (\"XYZ_NEW\")");
    assert_eq!(ResultCode::from_code("XYZ_NEW").to_string(), "Bilinmeyen Sonuç (\"XYZ_NEW\")");
}

#[test]
fn a_code_that_is_no_string_is_unknown() {
    assert_eq!(code_text("null"), "Bilinmeyen Sonuç (null)");
    assert_eq!(code_text("17"), "Bilinmeyen Sonuç (17)");
    assert_eq!(code_text("-2.5"), "Bilinmeyen Sonuç (-2.5)");
    assert_eq!(code_text("true"), "Bilinmeyen Sonuç (true)");
    assert_eq!(code_text("[\"VAL06\",false]"), "Bilinmeyen Sonuç ([\"VAL06\",false])");
    assert_eq!(
        code_text("{ \"b\" : [ ], \"a\" : { \"c\" : 1 } }"),
        "Bilinmeyen Sonuç ({\"a\":{\"c\":1},\"b\":[]})"
    );
}

#[test]
fn an_unknown_code_is_escaped_as_json() {
    assert_eq!(
        ResultCode::from_code("a\"b\\c\nd\u{1}é").to_string(),
        "Bilinmeyen Sonuç (\"a\\\"b\\\\c\\nd\\u0001é\")"
    );
}

#[test]
fn successful_response_decodes_and_renders() {
    let response = decoded(
        "{\"ecrnResultList\":[{\"crn\":\"10010\",\"operationFinished\":true,\"statusCode\":200,\"resultCode\":\"successResult\"}],\"scrnResultList\":[]}",
    );
    assert_eq!(response.ecrn_result_list.len(), 1);
    assert_eq!(response.scrn_result_list.len(), 0);
    let outcome = &response.ecrn_result_list[0];
    assert_eq!(outcome.crn, "10010");
    assert!(outcome.operation_finished);
    assert_eq!(outcome.status_code, 200);
    assert!(matches!(outcome.result_code, ResultCode::Known(KnownResultCode::SuccessResult)));
    assert!(outcome.result_data.is_none());
    assert_eq!(outcome.to_string(), "10010: İşlem başarıyla tamamlandı.");
    assert_eq!(
        response.to_string(),
        "Eklenen CRN Sonuçları\n10010: İşlem başarıyla tamamlandı.\nÇıkarılan CRN Sonuçları\n"
    );
}

#[test]
fn response_renders_both_lists_in_order() {
    let response = decoded(
        "{\"scrnResultList\":[{\"crn\":\"3\",\"operationFinished\":true,\"statusCode\":0,\"resultCode\":\"Silme İşlemi Başarılı\",\"resultData\":null}],
          \"ecrnResultList\":[
            {\"crn\":\"1\",\"operationFinished\":false,\"statusCode\":-1,\"resultCode\":\"VAL09\",\"resultData\":{\"k\":[1,2]}},
            {\"crn\":\"2\",\"operationFinished\":true,\"statusCode\":9223372036854775807,\"resultCode\":\"??\",\"extra\":1}],
          \"more\":true}",
    );
    assert_eq!(
        response.to_string(),
        "Eklenen CRN Sonuçları\n1: Başka bir dersle çakıştığından dolayı alınamadı.\n2: Bilinmeyen Sonuç (\"??\")\nÇıkarılan CRN Sonuçları\n3: Silme işlemi başarıyla tamamlandı.\n"
    );
    assert_eq!(response.ecrn_result_list[0].status_code, -1);
    assert_eq!(response.ecrn_result_list[1].status_code, i64::MAX);
    match &response.ecrn_result_list[0].result_data {
        Some(ResultData(data)) => assert_eq!(data.to_text(), "{\"k\":[1,2]}"),
        None => panic!("the data is missing"),
    }
    assert!(response.ecrn_result_list[1].result_data.is_none());
    assert!(response.scrn_result_list[0].result_data.is_none());
    assert_eq!(response.scrn_result_list[0].to_string(), "3: Silme işlemi başarıyla tamamlandı.");
}

#[test]
fn empty_response_renders_its_headings() {
    let response = decoded("{\"ecrnResultList\":[],\"scrnResultList\":[]}");
    assert_eq!(response.to_string(), "Eklenen CRN Sonuçları\nÇıkarılan CRN Sonuçları\n");
}

#[test]
fn a_body_that_is_no_json_is_a_syntax_error() {
    for body in ["", "{", "<html></html>", "{\"ecrnResultList\":[],\"scrnResultList\":[]} x", "\u{feff}{}"]
    {
        assert_eq!(
            CourseSelectionResponseBody::from_slice(body.as_bytes()).err(),
            Some(DecodeError::Syntax),
            "{}",
            body
        );
    }
    assert_eq!(
        CourseSelectionResponseBody::from_slice(&[0xff, 0xfe]).err(),
        Some(DecodeError::Syntax)
    );
}

#[test]
fn a_body_of_another_shape_is_a_shape_error() {
    let good = "{\"crn\":\"1\",\"operationFinished\":true,\"statusCode\":1,\"resultCode\":\"x\"}";
    let bodies = [
        "null".to_string(),
        "[]".to_string(),
        "{}".to_string(),
        "{\"ecrnResultList\":[]}".to_string(),
        "{\"scrnResultList\":[]}".to_string(),
        "{\"ecrnResultList\":{},\"scrnResultList\":[]}".to_string(),
        "{\"ecrnResultList\":[],\"scrnResultList\":null}".to_string(),
        "{\"ecrnResultList\":[1],\"scrnResultList\":[]}".to_string(),
        format!("{{\"ecrnResultList\":[{},{{}}],\"scrnResultList\":[]}}", good),
        format!("{{\"ecrnResultList\":[],\"scrnResultList\":[{},[]]}}", good),
        "{\"ecrnResultList\":[{\"operationFinished\":true,\"statusCode\":1,\"resultCode\":\"x\"}],\"scrnResultList\":[]}".to_string(),
        "{\"ecrnResultList\":[{\"crn\":1,\"operationFinished\":true,\"statusCode\":1,\"resultCode\":\"x\"}],\"scrnResultList\":[]}".to_string(),
        "{\"ecrnResultList\":[{\"crn\":\"1\",\"operationFinished\":\"true\",\"statusCode\":1,\"resultCode\":\"x\"}],\"scrnResultList\":[]}".to_string(),
        "{\"ecrnResultList\":[{\"crn\":\"1\",\"operationFinished\":true,\"statusCode\":1.5,\"resultCode\":\"x\"}],\"scrnResultList\":[]}".to_string(),
        "{\"ecrnResultList\":[{\"crn\":\"1\",\"operationFinished\":true,\"statusCode\":9223372036854775808,\"resultCode\":\"x\"}],\"scrnResultList\":[]}".to_string(),
        "{\"ecrnResultList\":[{\"crn\":\"1\",\"operationFinished\":true,\"statusCode\":\"200\",\"resultCode\":\"x\"}],\"scrnResultList\":[]}".to_string(),
        "{\"ecrnResultList\":[{\"crn\":\"1\",\"operationFinished\":true,\"statusCode\":1}],\"scrnResultList\":[]}".to_string(),
    ];
    for body in bodies {
        assert_eq!(
            CourseSelectionResponseBody::from_slice(body.as_bytes()).err(),
            Some(DecodeError::Shape),
            "{}",
            body
        );
    }
    let document = Json::Object(vec![("ecrnResultList".to_string(), Json::Array(vec![]))]);
    assert!(CourseSelectionResponseBody::from_json(&document).is_none());
}

#[test]
fn outcomes_are_read_from_documents() {
    let document = Json::Object(vec![
        ("crn".to_string(), Json::Text("30003".to_string())),
        ("operationFinished".to_string(), Json::Bool(true)),
        ("statusCode".to_string(), Json::Number(Some(7), "7".to_string())),
        ("resultCode".to_string(), Json::Text("VAL13".to_string())),
        ("resultData".to_string(), Json::Bool(false)),
    ]);
    let added = CrnAddResult::from_json(&document).expect("an outcome");
    assert_eq!(added.to_string(), "30003: Geçici olarak engellenmiş olması sebebiyle alınamadı.");
    assert!(matches!(added.result_data, Some(ResultData(Json::Bool(false)))));
    let dropped = CrnDropResult::from_json(&document).expect("an outcome");
    assert_eq!(dropped.crn, "30003");
    assert!(dropped.operation_finished);
    assert_eq!(dropped.status_code, 7);
    assert!(CrnAddResult::from_json(&Json::Null).is_none());
    assert!(CrnDropResult::from_json(&Json::Array(vec![])).is_none());
    let float = Json::Object(vec![
        ("crn".to_string(), Json::Text("30003".to_string())),
        ("operationFinished".to_string(), Json::Bool(true)),
        ("statusCode".to_string(), Json::Number(None, "7.0".to_string())),
        ("resultCode".to_string(), Json::Text("VAL13".to_string())),
    ]);
    assert!(CrnAddResult::from_json(&float).is_none());
}

#[test]
fn the_first_of_two_members_with_one_key_is_read() {
    let document = Json::Object(vec![
        ("a".to_string(), Json::Bool(true)),
        ("a".to_string(), Json::Null),
    ]);
    assert!(matches!(document.member("a"), Some(Json::Bool(true))));
    assert!(document.member("b").is_none());
    assert!(Json::Array(vec![]).member("a").is_none());
}

#[test]
fn request_text_holds_both_lists() {
    let request = CourseSelectionRequestBody::new(strings(&["10010"]), strings(&[]));
    assert_eq!(request.to_text(), "{\"ECRN\":[\"10010\"],\"SCRN\":[]}");
    let request = CourseSelectionRequestBody::new(strings(&[]), strings(&["1", "2"]));
    assert_eq!(request.to_text(), "{\"ECRN\":[],\"SCRN\":[\"1\",\"2\"]}");
    assert_eq!(request.crn_list().len(), 0);
    assert_eq!(request.scrn_list(), &strings(&["1", "2"]));
}

#[test]
fn request_keeps_order_and_repeats() {
    let config = Config::new(
        "u".to_string(),
        "p".to_string(),
        Instant::new(0, 0).unwrap(),
        strings(&["3", "1", "3", "2", "1"]),
        strings(&["9", "9"]),
    );
    let request = CourseSelectionRequestBody::from_config(config.clone());
    assert_eq!(request.crn_list(), &strings(&["3", "1", "3", "2", "1"]));
    assert_eq!(request.scrn_list(), &strings(&["9", "9"]));
    assert_eq!(
        request.to_text(),
        "{\"ECRN\":[\"3\",\"1\",\"3\",\"2\",\"1\"],\"SCRN\":[\"9\",\"9\"]}"
    );
    let again = CourseSelectionRequestBody::from_config(config);
    assert_eq!(again.to_text().as_bytes(), request.to_text().as_bytes());
    assert_eq!(request.to_text(), request.to_text());
}

#[test]
fn request_text_escapes_its_strings() {
    let request = CourseSelectionRequestBody::new(strings(&["a\"b", "ç\t"]), strings(&["\\"]));
    assert_eq!(request.to_text(), "{\"ECRN\":[\"a\\\"b\",\"ç\\t\"],\"SCRN\":[\"\\\\\"]}");
}

#[test]
fn request_text_is_read_back_as_it_was_written() {
    let request = CourseSelectionRequestBody::new(strings(&["10010", "x y"]), strings(&["7"]));
    let json = request.to_json();
    match &json {
        Json::Object(members) => {
            assert_eq!(members.len(), 2);
            assert_eq!(members[0].0, "ECRN");
            assert_eq!(members[1].0, "SCRN");
        },
        other => panic!("{:?}", other),
    }
    assert_eq!(json.to_text(), request.to_text());
    assert_eq!(json.clone().to_text(), request.to_text());
}
