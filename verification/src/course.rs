//! Course selection: the request that is sent, the outcomes that come back,
//! and the server's result codes.

use vstd::prelude::*;
use vstd::string::StringExecFns;
use crate::json::{json_document, json_member, json_text, read_document, Json, JsonView};
use crate::requester::Config;

verus! {

/// The body of a course selection request: the courses to add and the
/// courses to drop.
#[derive(Debug)]
pub struct CourseSelectionRequestBody {
    crn_list: Vec<String>,
    scrn_list: Vec<String>,
}

/// The mathematical value of a [`CourseSelectionRequestBody`].
pub ghost struct RequestView {
    pub crn_list: Seq<Seq<char>>,
    pub scrn_list: Seq<Seq<char>>,
}

impl View for CourseSelectionRequestBody {
    type V = RequestView;

    closed spec fn view(&self) -> RequestView {
        RequestView {
            crn_list: self.crn_list.deep_view(),
            scrn_list: self.scrn_list.deep_view(),
        }
    }
}

impl Clone for CourseSelectionRequestBody {
    fn clone(&self) -> (r: Self)
        ensures
            r@ == self@,
    {
        let crn_list = self.crn_list.clone();
        let scrn_list = self.scrn_list.clone();
        assert(crn_list.deep_view() =~= self.crn_list.deep_view());
        assert(scrn_list.deep_view() =~= self.scrn_list.deep_view());
        Self { crn_list, scrn_list }
    }
}

/// A list of courses as a JSON array of strings, in the list's order.
pub open spec fn course_array(courses: Seq<Seq<char>>) -> JsonView {
    JsonView::Array(Seq::new(courses.len(), |i: int| JsonView::Text(courses[i])))
}

/// A request as a JSON document: an object with the courses to add under
/// `ECRN` and the courses to drop under `SCRN`.
pub open spec fn request_json(request: RequestView) -> JsonView {
    JsonView::Object(
        seq![
            ("ECRN"@, course_array(request.crn_list)),
            ("SCRN"@, course_array(request.scrn_list)),
        ],
    )
}

/// A list of courses as a JSON array of strings.
fn course_list(courses: &Vec<String>) -> (r: Json)
    ensures
        r@ == course_array(courses.deep_view()),
{
    let mut items: Vec<Json> = Vec::new();
    let mut i: usize = 0;
    while i < courses.len()
        invariant
            i <= courses.len(),
            items.len() == i,
            forall|j: int| 0 <= j < i ==> (#[trigger] items@[j])@ == JsonView::Text(courses@[j]@),
        decreases courses.len() - i,
    {
        items.push(Json::Text(courses[i].clone()));
        i += 1;
    }
    let r = Json::Array(items);
    assert(r@->Array_0 =~= course_array(courses.deep_view())->Array_0);
    r
}

impl CourseSelectionRequestBody {
    /// The request to add the courses of `crn_list` and to drop those of
    /// `scrn_list`. Both lists are taken as they are.
    pub fn new(crn_list: Vec<String>, scrn_list: Vec<String>) -> (r: Self)
        ensures
            r@.crn_list == crn_list.deep_view(),
            r@.scrn_list == scrn_list.deep_view(),
    {
        Self { crn_list, scrn_list }
    }

    /// The request that a configuration asks for: its courses to add and to
    /// drop, in its order, none left out and none merged.
    pub fn from_config(config: Config) -> (r: Self)
        ensures
            r@.crn_list == config@.crn_list,
            r@.scrn_list == config@.scrn_list,
    {
        Self::new(config.crn_list, config.scrn_list)
    }

    /// The courses to add.
    pub fn crn_list(&self) -> (r: &Vec<String>)
        ensures
            r.deep_view() == self@.crn_list,
    {
        &self.crn_list
    }

    /// The courses to drop.
    pub fn scrn_list(&self) -> (r: &Vec<String>)
        ensures
            r.deep_view() == self@.scrn_list,
    {
        &self.scrn_list
    }

    /// The request as a JSON document.
    pub fn to_json(&self) -> (r: Json)
        ensures
            r@ == request_json(self@),
    {
        let mut members: Vec<(String, Json)> = Vec::new();
        members.push(("ECRN".to_owned(), course_list(&self.crn_list)));
        members.push(("SCRN".to_owned(), course_list(&self.scrn_list)));
        let r = Json::Object(members);
        assert(r@->Object_0 =~= request_json(self@)->Object_0);
        r
    }

    /// The request as it is sent: compact JSON text.
    pub fn to_text(&self) -> (r: String)
        ensures
            r@ == json_text(request_json(self@)),
    {
        self.to_json().to_text()
    }
}

/// A request says what its configuration says, and its text depends on
/// nothing else: two configurations with the same courses to add and to drop
/// give requests with the same text.
pub proof fn lemma_request_determined_by_courses(
    first: CourseSelectionRequestBody,
    second: CourseSelectionRequestBody,
)
    requires
        first@.crn_list == second@.crn_list,
        first@.scrn_list == second@.scrn_list,
    ensures
        first@ == second@,
        json_text(request_json(first@)) == json_text(request_json(second@)),
{
}

/// A result code that the server is known to send.
#[derive(Clone, Copy, Debug, PartialEq, Eq, Structural)]
pub enum KnownResultCode {
    /// `successResult`
    SuccessResult,
    /// `errorResult`
    GenericError1,
    /// `None`
    NoneResult,
    /// `error`
    GenericError2,
    /// `VAL01`
    GenericError3,
    /// `VAL02`
    TimeBlock1,
    /// `VAL03`
    AlreadyAddedThisTerm,
    /// `VAL04`
    NotInCoursePlan,
    /// `VAL05`
    OverMaximumCreditLimit,
    /// `VAL06`
    InsufficientQuota1,
    /// `VAL07`
    PassedBeforeAA,
    /// `VAL08`
    WrongDegreeProgram,
    /// `VAL09`
    CourseConflict,
    /// `VAL10`
    CourseNotRegisteredNoOp,
    /// `VAL11`
    RequirementsNotMet,
    /// `VAL12`
    CourseNotOpened,
    /// `VAL13`
    TemporarilyBlocked,
    /// `VAL14`
    SystemNoAnswer,
    /// `VAL15`
    Max12Crn,
    /// `VAL16`
    ProcessOngoing,
    /// `VAL18`
    Blocked,
    /// `VAL19`
    CanNotTakeAssociateCourse,
    /// `VAL20`
    MustHaveAtLeastOneCourse,
    /// `CRNListEmpty`
    CrnListEmpty,
    /// `CRNNotFound`
    CrnNotFound,
    /// `ERRLoad`
    ErrorLoad,
    /// `NULLParam-CheckOgrenciKayitZamaniKontrolu`
    TimeBlock2,
    /// `Ekleme İşlemi Başarılı`
    SuccessfullyAdded,
    /// `Kontenjan Dolu`
    InsufficientQuota2,
    /// `Silme İşlemi Başarılı`
    SuccessfullyDropped,
}

impl KnownResultCode {
    /// The code as the server writes it.
    pub open spec fn wire_name(self) -> Seq<char> {
        match self {
            KnownResultCode::SuccessResult => "successResult"@,
            KnownResultCode::GenericError1 => "errorResult"@,
            KnownResultCode::NoneResult => "None"@,
            KnownResultCode::GenericError2 => "error"@,
            KnownResultCode::GenericError3 => "VAL01"@,
            KnownResultCode::TimeBlock1 => "VAL02"@,
            KnownResultCode::AlreadyAddedThisTerm => "VAL03"@,
            KnownResultCode::NotInCoursePlan => "VAL04"@,
            KnownResultCode::OverMaximumCreditLimit => "VAL05"@,
            KnownResultCode::InsufficientQuota1 => "VAL06"@,
            KnownResultCode::PassedBeforeAA => "VAL07"@,
            KnownResultCode::WrongDegreeProgram => "VAL08"@,
            KnownResultCode::CourseConflict => "VAL09"@,
            KnownResultCode::CourseNotRegisteredNoOp => "VAL10"@,
            KnownResultCode::RequirementsNotMet => "VAL11"@,
            KnownResultCode::CourseNotOpened => "VAL12"@,
            KnownResultCode::TemporarilyBlocked => "VAL13"@,
            KnownResultCode::SystemNoAnswer => "VAL14"@,
            KnownResultCode::Max12Crn => "VAL15"@,
            KnownResultCode::ProcessOngoing => "VAL16"@,
            KnownResultCode::Blocked => "VAL18"@,
            KnownResultCode::CanNotTakeAssociateCourse => "VAL19"@,
            KnownResultCode::MustHaveAtLeastOneCourse => "VAL20"@,
            KnownResultCode::CrnListEmpty => "CRNListEmpty"@,
            KnownResultCode::CrnNotFound => "CRNNotFound"@,
            KnownResultCode::ErrorLoad => "ERRLoad"@,
            KnownResultCode::TimeBlock2 => "NULLParam-CheckOgrenciKayitZamaniKontrolu"@,
            KnownResultCode::SuccessfullyAdded => "Ekleme İşlemi Başarılı"@,
            KnownResultCode::InsufficientQuota2 => "Kontenjan Dolu"@,
            KnownResultCode::SuccessfullyDropped => "Silme İşlemi Başarılı"@,
        }
    }

    /// What the code means, in words for the user.
    pub open spec fn description_text(self) -> Seq<char> {
        match self {
            KnownResultCode::SuccessResult => "İşlem başarıyla tamamlandı."@,
            KnownResultCode::GenericError1 | KnownResultCode::NoneResult => {
                "Operasyon tamamlanamadı."@
            },
            KnownResultCode::GenericError2 => "Bir hata meydana geldi."@,
            KnownResultCode::GenericError3 => "Bir problemden dolayı alınamadı"@,
            KnownResultCode::TimeBlock1 | KnownResultCode::TimeBlock2 => {
                "Kayıt zaman engelinden dolayı alınamadı"@
            },
            KnownResultCode::AlreadyAddedThisTerm => {
                "Bu dönem zaten alındığından dolayı tekrar alınmadı."@
            },
            KnownResultCode::NotInCoursePlan => "Ders planında yer almadığından dolayı alınamadı."@,
            KnownResultCode::OverMaximumCreditLimit => {
                "Dönemlik maksimum kredi sınırını aştığından dolayı alınamadı."@
            },
            KnownResultCode::InsufficientQuota1
            | KnownResultCode::InsufficientQuota2 => {
                "Kontenjan yetersizliğinden dolayı alınamadı."@
            },
            KnownResultCode::PassedBeforeAA => {
                "Daha önce AA notuyla verildiğinden dolayı alınamadı."@
            },
            KnownResultCode::WrongDegreeProgram => {
                "Program şartını sağlamadığından dolayı alınamadı."@
            },
            KnownResultCode::CourseConflict => "Başka bir dersle çakıştığından dolayı alınamadı."@,
            KnownResultCode::CourseNotRegisteredNoOp => {
                "Derse kayıtlı olmadığınızdan dolayı hiç bir işlem yapılmadı."@
            },
            KnownResultCode::RequirementsNotMet => "Önşartlardan dolayı alınamadı."@,
            KnownResultCode::CourseNotOpened => {
                "Şu anki dönemde hiç açılmadığından dolayı alınamadı."@
            },
            KnownResultCode::TemporarilyBlocked => {
                "Geçici olarak engellenmiş olması sebebiyle alınamadı."@
            },
            KnownResultCode::SystemNoAnswer | KnownResultCode::ErrorLoad => {
                "Sistem geçici olarak yanıt vermiyor."@
            },
            KnownResultCode::Max12Crn => "Maksimum 12 CRN alabilirsiniz,"@,
            KnownResultCode::ProcessOngoing => {
                "Aktif bir işleminiz devam ettiğinden dolayı işlem yapılmadı."@
            },
            KnownResultCode::Blocked => "Engellendiğinden dolayı alınamadı."@,
            KnownResultCode::CanNotTakeAssociateCourse => {
                "Önlisans dersi olduğundan dolayı alınamadı."@
            },
            KnownResultCode::MustHaveAtLeastOneCourse => {
                "Dönem başına sadece 1 ders bırakabilirsiniz."@
            },
            KnownResultCode::CrnListEmpty => "CRN listesi boş göründüğünden alınamadı."@,
            KnownResultCode::CrnNotFound => "CRN bulunamadığından dolayı alınamadı."@,
            KnownResultCode::SuccessfullyAdded => "Ekleme işlemi başarıyla tamamlandı."@,
            KnownResultCode::SuccessfullyDropped => "Silme işlemi başarıyla tamamlandı."@,
        }
    }

    /// The code as the server writes it.
    pub fn code(&self) -> (r: &'static str)
        ensures
            r@ == self.wire_name(),
    {
        match self {
            KnownResultCode::SuccessResult => "successResult",
            KnownResultCode::GenericError1 => "errorResult",
            KnownResultCode::NoneResult => "None",
            KnownResultCode::GenericError2 => "error",
            KnownResultCode::GenericError3 => "VAL01",
            KnownResultCode::TimeBlock1 => "VAL02",
            KnownResultCode::AlreadyAddedThisTerm => "VAL03",
            KnownResultCode::NotInCoursePlan => "VAL04",
            KnownResultCode::OverMaximumCreditLimit => "VAL05",
            KnownResultCode::InsufficientQuota1 => "VAL06",
            KnownResultCode::PassedBeforeAA => "VAL07",
            KnownResultCode::WrongDegreeProgram => "VAL08",
            KnownResultCode::CourseConflict => "VAL09",
            KnownResultCode::CourseNotRegisteredNoOp => "VAL10",
            KnownResultCode::RequirementsNotMet => "VAL11",
            KnownResultCode::CourseNotOpened => "VAL12",
            KnownResultCode::TemporarilyBlocked => "VAL13",
            KnownResultCode::SystemNoAnswer => "VAL14",
            KnownResultCode::Max12Crn => "VAL15",
            KnownResultCode::ProcessOngoing => "VAL16",
            KnownResultCode::Blocked => "VAL18",
            KnownResultCode::CanNotTakeAssociateCourse => "VAL19",
            KnownResultCode::MustHaveAtLeastOneCourse => "VAL20",
            KnownResultCode::CrnListEmpty => "CRNListEmpty",
            KnownResultCode::CrnNotFound => "CRNNotFound",
            KnownResultCode::ErrorLoad => "ERRLoad",
            KnownResultCode::TimeBlock2 => "NULLParam-CheckOgrenciKayitZamaniKontrolu",
            KnownResultCode::SuccessfullyAdded => "Ekleme İşlemi Başarılı",
            KnownResultCode::InsufficientQuota2 => "Kontenjan Dolu",
            KnownResultCode::SuccessfullyDropped => "Silme İşlemi Başarılı",
        }
    }

    /// What the code means, in words for the user.
    pub fn description(&self) -> (r: &'static str)
        ensures
            r@ == self.description_text(),
    {
        match self {
            KnownResultCode::SuccessResult => "İşlem başarıyla tamamlandı.",
            KnownResultCode::GenericError1 | KnownResultCode::NoneResult => {
                "Operasyon tamamlanamadı."
            },
            KnownResultCode::GenericError2 => "Bir hata meydana geldi.",
            KnownResultCode::GenericError3 => "Bir problemden dolayı alınamadı",
            KnownResultCode::TimeBlock1 | KnownResultCode::TimeBlock2 => {
                "Kayıt zaman engelinden dolayı alınamadı"
            },
            KnownResultCode::AlreadyAddedThisTerm => {
                "Bu dönem zaten alındığından dolayı tekrar alınmadı."
            },
            KnownResultCode::NotInCoursePlan => "Ders planında yer almadığından dolayı alınamadı.",
            KnownResultCode::OverMaximumCreditLimit => {
                "Dönemlik maksimum kredi sınırını aştığından dolayı alınamadı."
            },
            KnownResultCode::InsufficientQuota1
            | KnownResultCode::InsufficientQuota2 => "Kontenjan yetersizliğinden dolayı alınamadı.",
            KnownResultCode::PassedBeforeAA => {
                "Daha önce AA notuyla verildiğinden dolayı alınamadı."
            },
            KnownResultCode::WrongDegreeProgram => {
                "Program şartını sağlamadığından dolayı alınamadı."
            },
            KnownResultCode::CourseConflict => "Başka bir dersle çakıştığından dolayı alınamadı.",
            KnownResultCode::CourseNotRegisteredNoOp => {
                "Derse kayıtlı olmadığınızdan dolayı hiç bir işlem yapılmadı."
            },
            KnownResultCode::RequirementsNotMet => "Önşartlardan dolayı alınamadı.",
            KnownResultCode::CourseNotOpened => {
                "Şu anki dönemde hiç açılmadığından dolayı alınamadı."
            },
            KnownResultCode::TemporarilyBlocked => {
                "Geçici olarak engellenmiş olması sebebiyle alınamadı."
            },
            KnownResultCode::SystemNoAnswer | KnownResultCode::ErrorLoad => {
                "Sistem geçici olarak yanıt vermiyor."
            },
            KnownResultCode::Max12Crn => "Maksimum 12 CRN alabilirsiniz,",
            KnownResultCode::ProcessOngoing => {
                "Aktif bir işleminiz devam ettiğinden dolayı işlem yapılmadı."
            },
            KnownResultCode::Blocked => "Engellendiğinden dolayı alınamadı.",
            KnownResultCode::CanNotTakeAssociateCourse => {
                "Önlisans dersi olduğundan dolayı alınamadı."
            },
            KnownResultCode::MustHaveAtLeastOneCourse => {
                "Dönem başına sadece 1 ders bırakabilirsiniz."
            },
            KnownResultCode::CrnListEmpty => "CRN listesi boş göründüğünden alınamadı.",
            KnownResultCode::CrnNotFound => "CRN bulunamadığından dolayı alınamadı.",
            KnownResultCode::SuccessfullyAdded => "Ekleme işlemi başarıyla tamamlandı.",
            KnownResultCode::SuccessfullyDropped => "Silme işlemi başarıyla tamamlandı.",
        }
    }

    /// The known code that the server writes as `code`, if there is one.
    pub fn from_code(code: &str) -> (r: Option<KnownResultCode>)
        ensures
            r == known_code(code@),
    {
        let found = KnownResultCode::find(code);
        proof {
            if let Some(known) = found {
                lemma_wire_names_differ(known, known_code(code@)->0);
            }
        }
        found
    }

    /// Goes through the known codes for one that is written as `code`.
    fn find(code: &str) -> (r: Option<KnownResultCode>)
        ensures
            match r {
                Some(known) => known.wire_name() == code@,
                None => forall|known: KnownResultCode| known.wire_name() != code@,
            },
    {
        let wanted = code.to_owned();
        if wanted == "successResult".to_owned() {
            Some(KnownResultCode::SuccessResult)
        } else if wanted == "errorResult".to_owned() {
            Some(KnownResultCode::GenericError1)
        } else if wanted == "None".to_owned() {
            Some(KnownResultCode::NoneResult)
        } else if wanted == "error".to_owned() {
            Some(KnownResultCode::GenericError2)
        } else if wanted == "VAL01".to_owned() {
            Some(KnownResultCode::GenericError3)
        } else if wanted == "VAL02".to_owned() {
            Some(KnownResultCode::TimeBlock1)
        } else if wanted == "VAL03".to_owned() {
            Some(KnownResultCode::AlreadyAddedThisTerm)
        } else if wanted == "VAL04".to_owned() {
            Some(KnownResultCode::NotInCoursePlan)
        } else if wanted == "VAL05".to_owned() {
            Some(KnownResultCode::OverMaximumCreditLimit)
        } else if wanted == "VAL06".to_owned() {
            Some(KnownResultCode::InsufficientQuota1)
        } else if wanted == "VAL07".to_owned() {
            Some(KnownResultCode::PassedBeforeAA)
        } else if wanted == "VAL08".to_owned() {
            Some(KnownResultCode::WrongDegreeProgram)
        } else if wanted == "VAL09".to_owned() {
            Some(KnownResultCode::CourseConflict)
        } else if wanted == "VAL10".to_owned() {
            Some(KnownResultCode::CourseNotRegisteredNoOp)
        } else if wanted == "VAL11".to_owned() {
            Some(KnownResultCode::RequirementsNotMet)
        } else if wanted == "VAL12".to_owned() {
            Some(KnownResultCode::CourseNotOpened)
        } else if wanted == "VAL13".to_owned() {
            Some(KnownResultCode::TemporarilyBlocked)
        } else if wanted == "VAL14".to_owned() {
            Some(KnownResultCode::SystemNoAnswer)
        } else if wanted == "VAL15".to_owned() {
            Some(KnownResultCode::Max12Crn)
        } else if wanted == "VAL16".to_owned() {
            Some(KnownResultCode::ProcessOngoing)
        } else if wanted == "VAL18".to_owned() {
            Some(KnownResultCode::Blocked)
        } else if wanted == "VAL19".to_owned() {
            Some(KnownResultCode::CanNotTakeAssociateCourse)
        } else if wanted == "VAL20".to_owned() {
            Some(KnownResultCode::MustHaveAtLeastOneCourse)
        } else if wanted == "CRNListEmpty".to_owned() {
            Some(KnownResultCode::CrnListEmpty)
        } else if wanted == "CRNNotFound".to_owned() {
            Some(KnownResultCode::CrnNotFound)
        } else if wanted == "ERRLoad".to_owned() {
            Some(KnownResultCode::ErrorLoad)
        } else if wanted == "NULLParam-CheckOgrenciKayitZamaniKontrolu".to_owned() {
            Some(KnownResultCode::TimeBlock2)
        } else if wanted == "Ekleme İşlemi Başarılı".to_owned() {
            Some(KnownResultCode::SuccessfullyAdded)
        } else if wanted == "Kontenjan Dolu".to_owned() {
            Some(KnownResultCode::InsufficientQuota2)
        } else if wanted == "Silme İşlemi Başarılı".to_owned() {
            Some(KnownResultCode::SuccessfullyDropped)
        } else {
            None
        }
    }
}


/// The length of a known code and two of its characters, which together
/// tell the known codes apart.
spec fn mark(known: KnownResultCode) -> (nat, char, char) {
    match known {
        KnownResultCode::SuccessResult => (13, 'c', 'e'),
        KnownResultCode::GenericError1 => (11, 'o', 'r'),
        KnownResultCode::NoneResult => (4, 'e', ' '),
        KnownResultCode::GenericError2 => (5, 'o', 'r'),
        KnownResultCode::GenericError3 => (5, '0', '1'),
        KnownResultCode::TimeBlock1 => (5, '0', '2'),
        KnownResultCode::AlreadyAddedThisTerm => (5, '0', '3'),
        KnownResultCode::NotInCoursePlan => (5, '0', '4'),
        KnownResultCode::OverMaximumCreditLimit => (5, '0', '5'),
        KnownResultCode::InsufficientQuota1 => (5, '0', '6'),
        KnownResultCode::PassedBeforeAA => (5, '0', '7'),
        KnownResultCode::WrongDegreeProgram => (5, '0', '8'),
        KnownResultCode::CourseConflict => (5, '0', '9'),
        KnownResultCode::CourseNotRegisteredNoOp => (5, '1', '0'),
        KnownResultCode::RequirementsNotMet => (5, '1', '1'),
        KnownResultCode::CourseNotOpened => (5, '1', '2'),
        KnownResultCode::TemporarilyBlocked => (5, '1', '3'),
        KnownResultCode::SystemNoAnswer => (5, '1', '4'),
        KnownResultCode::Max12Crn => (5, '1', '5'),
        KnownResultCode::ProcessOngoing => (5, '1', '6'),
        KnownResultCode::Blocked => (5, '1', '8'),
        KnownResultCode::CanNotTakeAssociateCourse => (5, '1', '9'),
        KnownResultCode::MustHaveAtLeastOneCourse => (5, '2', '0'),
        KnownResultCode::CrnListEmpty => (12, 'L', 'i'),
        KnownResultCode::CrnNotFound => (11, 'N', 'o'),
        KnownResultCode::ErrorLoad => (7, 'L', 'o'),
        KnownResultCode::TimeBlock2 => (41, 'L', 'P'),
        KnownResultCode::SuccessfullyAdded => (22, 'e', 'm'),
        KnownResultCode::InsufficientQuota2 => (14, 't', 'e'),
        KnownResultCode::SuccessfullyDropped => (21, 'm', 'e'),
    }
}

proof fn lemma_mark(known: KnownResultCode)
    ensures
        known.wire_name().len() == mark(known).0,
        known.wire_name()[3] == mark(known).1,
        mark(known).0 > 4 ==> known.wire_name()[4] == mark(known).2,
{
    match known {
        KnownResultCode::SuccessResult => {
            reveal_strlit("successResult");
        },
        KnownResultCode::GenericError1 => {
            reveal_strlit("errorResult");
        },
        KnownResultCode::NoneResult => {
            reveal_strlit("None");
        },
        KnownResultCode::GenericError2 => {
            reveal_strlit("error");
        },
        KnownResultCode::GenericError3 => {
            reveal_strlit("VAL01");
        },
        KnownResultCode::TimeBlock1 => {
            reveal_strlit("VAL02");
        },
        KnownResultCode::AlreadyAddedThisTerm => {
            reveal_strlit("VAL03");
        },
        KnownResultCode::NotInCoursePlan => {
            reveal_strlit("VAL04");
        },
        KnownResultCode::OverMaximumCreditLimit => {
            reveal_strlit("VAL05");
        },
        KnownResultCode::InsufficientQuota1 => {
            reveal_strlit("VAL06");
        },
        KnownResultCode::PassedBeforeAA => {
            reveal_strlit("VAL07");
        },
        KnownResultCode::WrongDegreeProgram => {
            reveal_strlit("VAL08");
        },
        KnownResultCode::CourseConflict => {
            reveal_strlit("VAL09");
        },
        KnownResultCode::CourseNotRegisteredNoOp => {
            reveal_strlit("VAL10");
        },
        KnownResultCode::RequirementsNotMet => {
            reveal_strlit("VAL11");
        },
        KnownResultCode::CourseNotOpened => {
            reveal_strlit("VAL12");
        },
        KnownResultCode::TemporarilyBlocked => {
            reveal_strlit("VAL13");
        },
        KnownResultCode::SystemNoAnswer => {
            reveal_strlit("VAL14");
        },
        KnownResultCode::Max12Crn => {
            reveal_strlit("VAL15");
        },
        KnownResultCode::ProcessOngoing => {
            reveal_strlit("VAL16");
        },
        KnownResultCode::Blocked => {
            reveal_strlit("VAL18");
        },
        KnownResultCode::CanNotTakeAssociateCourse => {
            reveal_strlit("VAL19");
        },
        KnownResultCode::MustHaveAtLeastOneCourse => {
            reveal_strlit("VAL20");
        },
        KnownResultCode::CrnListEmpty => {
            reveal_strlit("CRNListEmpty");
        },
        KnownResultCode::CrnNotFound => {
            reveal_strlit("CRNNotFound");
        },
        KnownResultCode::ErrorLoad => {
            reveal_strlit("ERRLoad");
        },
        KnownResultCode::TimeBlock2 => {
            reveal_strlit("NULLParam-CheckOgrenciKayitZamaniKontrolu");
        },
        KnownResultCode::SuccessfullyAdded => {
            reveal_strlit("Ekleme İşlemi Başarılı");
        },
        KnownResultCode::InsufficientQuota2 => {
            reveal_strlit("Kontenjan Dolu");
        },
        KnownResultCode::SuccessfullyDropped => {
            reveal_strlit("Silme İşlemi Başarılı");
        },
    }
}

/// No two known codes are written alike: a code names at most one of them.
pub proof fn lemma_wire_names_differ(a: KnownResultCode, b: KnownResultCode)
    requires
        a.wire_name() == b.wire_name(),
    ensures
        a == b,
{
    lemma_mark(a);
    lemma_mark(b);
}

/// The known code that is written as `code`, if there is one.
pub open spec fn known_code(code: Seq<char>) -> Option<KnownResultCode> {
    if exists|known: KnownResultCode| known.wire_name() == code {
        Some(choose|known: KnownResultCode| known.wire_name() == code)
    } else {
        None
    }
}

/// A result code that is not among the known ones, kept as it came.
#[derive(Debug)]
pub struct UnknownResultCode(pub Json);

impl Clone for UnknownResultCode {
    fn clone(&self) -> (r: Self)
        ensures
            r.0@ == self.0@,
    {
        UnknownResultCode(self.0.clone())
    }
}

/// What the server says of one course: a known code, or whatever else it
/// sent in its place.
#[derive(Debug)]
pub enum ResultCode {
    Known(KnownResultCode),
    Unknown(UnknownResultCode),
}

impl Clone for ResultCode {
    fn clone(&self) -> (r: Self)
        ensures
            r@ == self@,
    {
        match self {
            ResultCode::Known(known) => ResultCode::Known(*known),
            ResultCode::Unknown(unknown) => ResultCode::Unknown(unknown.clone()),
        }
    }
}

/// The mathematical value of a [`ResultCode`].
pub ghost enum ResultCodeView {
    Known(KnownResultCode),
    Unknown(JsonView),
}

impl View for ResultCode {
    type V = ResultCodeView;

    open spec fn view(&self) -> ResultCodeView {
        match self {
            ResultCode::Known(known) => ResultCodeView::Known(*known),
            ResultCode::Unknown(unknown) => ResultCodeView::Unknown(unknown.0@),
        }
    }
}

/// The result code that a code string stands for: the known code of that
/// name, else the string itself as an unknown one.
pub open spec fn classify(code: Seq<char>) -> ResultCodeView {
    match known_code(code) {
        Some(known) => ResultCodeView::Known(known),
        None => ResultCodeView::Unknown(JsonView::Text(code)),
    }
}

/// The result code that a JSON value stands for. A value that is no string
/// is an unknown code.
pub open spec fn result_code_of(value: JsonView) -> ResultCodeView {
    match value {
        JsonView::Text(code) => classify(code),
        other => ResultCodeView::Unknown(other),
    }
}

/// A result code in words: the description of a known code, and for an
/// unknown one the value that came, as JSON, in a fixed frame.
pub open spec fn result_code_text(code: ResultCodeView) -> Seq<char> {
    match code {
        ResultCodeView::Known(known) => known.description_text(),
        ResultCodeView::Unknown(raw) => "Bilinmeyen Sonuç ("@ + json_text(raw) + ")"@,
    }
}

/// Every code string is classified, and in one way only: as the known code
/// of that name if there is one, else as an unknown code that holds the
/// string itself.
pub proof fn lemma_classification_is_total(code: Seq<char>)
    ensures
        classify(code) is Known <==> exists|known: KnownResultCode| known.wire_name() == code,
        classify(code) matches ResultCodeView::Known(known) ==> known.wire_name() == code,
        classify(code) is Unknown ==> classify(code) == ResultCodeView::Unknown(
            JsonView::Text(code),
        ),
        forall|known: KnownResultCode|
            classify(#[trigger] known.wire_name()) == ResultCodeView::Known(known),
{
    assert forall|known: KnownResultCode|
        classify(#[trigger] known.wire_name()) == ResultCodeView::Known(known) by {
        lemma_wire_names_differ(known, known_code(known.wire_name())->0);
    }
}

impl UnknownResultCode {
    /// The code in words: the value that came, as JSON, in a fixed frame.
    pub fn to_string(&self) -> (r: String)
        ensures
            r@ == result_code_text(ResultCodeView::Unknown(self.0@)),
    {
        let mut out = "Bilinmeyen Sonuç (".to_owned();
        let raw = self.0.to_text();
        out.append(raw.as_str());
        out.append(")");
        out
    }
}

impl ResultCode {
    /// Classifies a code string. Every string is classified: it names a known
    /// code or it is kept as an unknown one.
    pub fn from_code(code: &str) -> (r: ResultCode)
        ensures
            r@ == classify(code@),
            known_code(code@) is Some <==> r is Known,
    {
        match KnownResultCode::from_code(code) {
            Some(known) => ResultCode::Known(known),
            None => ResultCode::Unknown(UnknownResultCode(Json::Text(code.to_owned()))),
        }
    }

    /// Classifies a JSON value: a string as [`ResultCode::from_code`] does,
    /// anything else as an unknown code.
    pub fn from_json(value: &Json) -> (r: ResultCode)
        ensures
            r@ == result_code_of(value@),
    {
        match value {
            Json::Text(code) => ResultCode::from_code(code.as_str()),
            other => ResultCode::Unknown(UnknownResultCode(other.clone())),
        }
    }

    /// The code in words.
    pub fn to_string(&self) -> (r: String)
        ensures
            r@ == result_code_text(self@),
    {
        match self {
            ResultCode::Known(known) => known.description().to_owned(),
            ResultCode::Unknown(unknown) => unknown.to_string(),
        }
    }
}

/// What the server sent along with a result code, kept as it came.
#[derive(Debug)]
pub struct ResultData(pub Json);

impl Clone for ResultData {
    fn clone(&self) -> (r: Self)
        ensures
            r.0@ == self.0@,
    {
        ResultData(self.0.clone())
    }
}

/// The outcome for one course that was to be added.
#[derive(Debug)]
pub struct CrnAddResult {
    pub crn: String,
    pub operation_finished: bool,
    pub status_code: i64,
    pub result_code: ResultCode,
    pub result_data: Option<ResultData>,
}

/// The outcome for one course that was to be dropped.
#[derive(Debug)]
pub struct CrnDropResult {
    pub crn: String,
    pub operation_finished: bool,
    pub status_code: i64,
    pub result_code: ResultCode,
    pub result_data: Option<ResultData>,
}

/// The mathematical value of an outcome, of either kind.
pub ghost struct OutcomeView {
    pub crn: Seq<char>,
    pub operation_finished: bool,
    pub status_code: i64,
    pub result_code: ResultCodeView,
    pub result_data: Option<JsonView>,
}

/// The value of the data that came with a result code.
pub open spec fn result_data_view(data: Option<ResultData>) -> Option<JsonView> {
    match data {
        Some(data) => Some(data.0@),
        None => None,
    }
}

impl View for CrnAddResult {
    type V = OutcomeView;

    open spec fn view(&self) -> OutcomeView {
        OutcomeView {
            crn: self.crn@,
            operation_finished: self.operation_finished,
            status_code: self.status_code,
            result_code: self.result_code@,
            result_data: result_data_view(self.result_data),
        }
    }
}

impl View for CrnDropResult {
    type V = OutcomeView;

    open spec fn view(&self) -> OutcomeView {
        OutcomeView {
            crn: self.crn@,
            operation_finished: self.operation_finished,
            status_code: self.status_code,
            result_code: self.result_code@,
            result_data: result_data_view(self.result_data),
        }
    }
}

/// The data that an entry carries: none where the member is missing or
/// `null`.
pub open spec fn result_data_of(entry: JsonView) -> Option<JsonView> {
    match json_member(entry, "resultData"@) {
        None => None,
        Some(JsonView::Null) => None,
        Some(data) => Some(data),
    }
}

/// The outcome that an entry of a result list holds. The entry is an object
/// with a string `crn`, a boolean `operationFinished`, an integer
/// `statusCode` that fits 64 bits and a `resultCode`; `resultData` may be
/// missing; other members are passed over. Anything else holds no outcome.
pub open spec fn outcome_of(entry: JsonView) -> Option<OutcomeView> {
    match (
        json_member(entry, "crn"@),
        json_member(entry, "operationFinished"@),
        json_member(entry, "statusCode"@),
        json_member(entry, "resultCode"@),
    ) {
        (
            Some(JsonView::Text(crn)),
            Some(JsonView::Bool(operation_finished)),
            Some(JsonView::Number(Some(status_code), _)),
            Some(code),
        ) => Some(
            OutcomeView {
                crn,
                operation_finished,
                status_code,
                result_code: result_code_of(code),
                result_data: result_data_of(entry),
            },
        ),
        _ => None,
    }
}

/// The outcomes that a result list holds, in its order: the list is an array
/// and each of its entries holds an outcome.
pub open spec fn outcomes_of(list: JsonView) -> Option<Seq<OutcomeView>> {
    match list {
        JsonView::Array(entries) => if forall|i: int|
            0 <= i < entries.len() ==> outcome_of(#[trigger] entries[i]) is Some {
            Some(Seq::new(entries.len(), |i: int| outcome_of(entries[i])->0))
        } else {
            None
        },
        _ => None,
    }
}

/// An outcome in words: the course, a colon and the result code in words.
pub open spec fn outcome_text(outcome: OutcomeView) -> Seq<char> {
    outcome.crn + ": "@ + result_code_text(outcome.result_code)
}

/// The first `n` outcomes in words, one to a line.
pub open spec fn outcome_lines(outcomes: Seq<OutcomeView>, n: nat) -> Seq<char>
    decreases n,
{
    if n == 0 || n > outcomes.len() {
        Seq::empty()
    } else {
        outcome_lines(outcomes, (n - 1) as nat) + outcome_text(outcomes[n - 1]) + "\n"@
    }
}

/// What is read of one entry of a result list.
struct Entry {
    crn: String,
    operation_finished: bool,
    status_code: i64,
    result_code: ResultCode,
    result_data: Option<ResultData>,
}

impl Entry {
    spec fn view(&self) -> OutcomeView {
        OutcomeView {
            crn: self.crn@,
            operation_finished: self.operation_finished,
            status_code: self.status_code,
            result_code: self.result_code@,
            result_data: result_data_view(self.result_data),
        }
    }
}

/// Reads one entry of a result list.
fn read_entry(entry: &Json) -> (r: Option<Entry>)
    ensures
        match r {
            Some(read) => outcome_of(entry@) == Some(read@),
            None => outcome_of(entry@) is None,
        },
{
    let crn = match entry.member("crn") {
        Some(Json::Text(crn)) => crn.clone(),
        _ => return None,
    };
    let operation_finished = match entry.member("operationFinished") {
        Some(Json::Bool(finished)) => *finished,
        _ => return None,
    };
    let status_code = match entry.member("statusCode") {
        Some(Json::Number(Some(status), _)) => *status,
        _ => return None,
    };
    let result_code = match entry.member("resultCode") {
        Some(code) => ResultCode::from_json(code),
        None => return None,
    };
    let result_data = match entry.member("resultData") {
        None => None,
        Some(Json::Null) => None,
        Some(data) => Some(ResultData(data.clone())),
    };
    Some(Entry { crn, operation_finished, status_code, result_code, result_data })
}

impl CrnAddResult {
    /// The outcome that an entry of the list of added courses holds.
    pub fn from_json(entry: &Json) -> (r: Option<CrnAddResult>)
        ensures
            match r {
                Some(outcome) => outcome_of(entry@) == Some(outcome@),
                None => outcome_of(entry@) is None,
            },
    {
        match read_entry(entry) {
            Some(read) => Some(
                CrnAddResult {
                    crn: read.crn,
                    operation_finished: read.operation_finished,
                    status_code: read.status_code,
                    result_code: read.result_code,
                    result_data: read.result_data,
                },
            ),
            None => None,
        }
    }

    /// The outcome in words: the course, a colon and the result code in words.
    pub fn to_string(&self) -> (r: String)
        ensures
            r@ == outcome_text(self@),
    {
        let mut out = self.crn.clone();
        out.append(": ");
        let code = self.result_code.to_string();
        out.append(code.as_str());
        out
    }
}

impl CrnDropResult {
    /// The outcome that an entry of the list of dropped courses holds.
    pub fn from_json(entry: &Json) -> (r: Option<CrnDropResult>)
        ensures
            match r {
                Some(outcome) => outcome_of(entry@) == Some(outcome@),
                None => outcome_of(entry@) is None,
            },
    {
        match read_entry(entry) {
            Some(read) => Some(
                CrnDropResult {
                    crn: read.crn,
                    operation_finished: read.operation_finished,
                    status_code: read.status_code,
                    result_code: read.result_code,
                    result_data: read.result_data,
                },
            ),
            None => None,
        }
    }

    /// The outcome in words: the course, a colon and the result code in words.
    pub fn to_string(&self) -> (r: String)
        ensures
            r@ == outcome_text(self@),
    {
        let mut out = self.crn.clone();
        out.append(": ");
        let code = self.result_code.to_string();
        out.append(code.as_str());
        out
    }
}

/// Why a response body could not be decoded.
#[derive(Clone, Copy, Debug, PartialEq, Eq, Structural)]
pub enum DecodeError {
    /// The body is no JSON.
    Syntax,
    /// The body is JSON, but not a response.
    Shape,
}

/// What the server answers to a course selection request.
#[derive(Debug)]
pub struct CourseSelectionResponseBody {
    pub ecrn_result_list: Vec<CrnAddResult>,
    pub scrn_result_list: Vec<CrnDropResult>,
}

/// The mathematical value of a [`CourseSelectionResponseBody`].
pub ghost struct ResponseView {
    pub added: Seq<OutcomeView>,
    pub dropped: Seq<OutcomeView>,
}

impl View for CourseSelectionResponseBody {
    type V = ResponseView;

    open spec fn view(&self) -> ResponseView {
        ResponseView {
            added: self.ecrn_result_list@.map_values(|outcome: CrnAddResult| outcome@),
            dropped: self.scrn_result_list@.map_values(|outcome: CrnDropResult| outcome@),
        }
    }
}

/// The response that a document holds: an object with the result lists
/// `ecrnResultList` and `scrnResultList`. Anything else holds none.
pub open spec fn response_of(document: JsonView) -> Option<ResponseView> {
    match (json_member(document, "ecrnResultList"@), json_member(document, "scrnResultList"@)) {
        (Some(added), Some(dropped)) => match (outcomes_of(added), outcomes_of(dropped)) {
            (Some(added), Some(dropped)) => Some(ResponseView { added, dropped }),
            _ => None,
        },
        _ => None,
    }
}

/// The response that a body holds, or why it holds none.
pub open spec fn response_in(body: Seq<u8>) -> Result<ResponseView, DecodeError> {
    match json_document(body) {
        None => Err(DecodeError::Syntax),
        Some(document) => match response_of(document) {
            None => Err(DecodeError::Shape),
            Some(response) => Ok(response),
        },
    }
}

/// A response in words: a heading and the added courses' outcomes, then a
/// heading and the dropped courses' outcomes, each on a line of its own.
pub open spec fn response_text(response: ResponseView) -> Seq<char> {
    "Eklenen CRN Sonuçları\n"@ + outcome_lines(response.added, response.added.len())
        + "Çıkarılan CRN Sonuçları\n"@ + outcome_lines(
        response.dropped,
        response.dropped.len(),
    )
}

/// Reads the list of added courses' outcomes.
fn read_added(list: &Json) -> (r: Option<Vec<CrnAddResult>>)
    ensures
        match r {
            Some(outcomes) => outcomes_of(list@) == Some(
                outcomes@.map_values(|outcome: CrnAddResult| outcome@),
            ),
            None => outcomes_of(list@) is None,
        },
{
    match list {
        Json::Array(entries) => {
            let ghost views = list@->Array_0;
            let mut outcomes: Vec<CrnAddResult> = Vec::new();
            let mut i: usize = 0;
            while i < entries.len()
                invariant
                    i <= entries.len(),
                    list@ == JsonView::Array(views),
                    views.len() == entries.len(),
                    forall|j: int| 0 <= j < views.len() ==> views[j] == (#[trigger] entries@[j])@,
                    outcomes.len() == i,
                    forall|j: int|
                        0 <= j < i ==> outcome_of(views[j]) == Some((#[trigger] outcomes@[j])@),
                decreases entries.len() - i,
            {
                match CrnAddResult::from_json(&entries[i]) {
                    Some(outcome) => outcomes.push(outcome),
                    None => {
                        assert(outcome_of(views[i as int]) is None);
                        return None;
                    },
                }
                i += 1;
            }
            assert forall|j: int| 0 <= j < views.len() implies outcome_of(
                #[trigger] views[j],
            ) is Some by {
                assert(outcome_of(views[j]) == Some(outcomes@[j]@));
            }
            assert(outcomes_of(list@)->0 =~= outcomes@.map_values(
                |outcome: CrnAddResult| outcome@,
            ));
            Some(outcomes)
        },
        _ => None,
    }
}

/// Reads the list of dropped courses' outcomes.
fn read_dropped(list: &Json) -> (r: Option<Vec<CrnDropResult>>)
    ensures
        match r {
            Some(outcomes) => outcomes_of(list@) == Some(
                outcomes@.map_values(|outcome: CrnDropResult| outcome@),
            ),
            None => outcomes_of(list@) is None,
        },
{
    match list {
        Json::Array(entries) => {
            let ghost views = list@->Array_0;
            let mut outcomes: Vec<CrnDropResult> = Vec::new();
            let mut i: usize = 0;
            while i < entries.len()
                invariant
                    i <= entries.len(),
                    list@ == JsonView::Array(views),
                    views.len() == entries.len(),
                    forall|j: int| 0 <= j < views.len() ==> views[j] == (#[trigger] entries@[j])@,
                    outcomes.len() == i,
                    forall|j: int|
                        0 <= j < i ==> outcome_of(views[j]) == Some((#[trigger] outcomes@[j])@),
                decreases entries.len() - i,
            {
                match CrnDropResult::from_json(&entries[i]) {
                    Some(outcome) => outcomes.push(outcome),
                    None => {
                        assert(outcome_of(views[i as int]) is None);
                        return None;
                    },
                }
                i += 1;
            }
            assert forall|j: int| 0 <= j < views.len() implies outcome_of(
                #[trigger] views[j],
            ) is Some by {
                assert(outcome_of(views[j]) == Some(outcomes@[j]@));
            }
            assert(outcomes_of(list@)->0 =~= outcomes@.map_values(
                |outcome: CrnDropResult| outcome@,
            ));
            Some(outcomes)
        },
        _ => None,
    }
}

impl CourseSelectionResponseBody {
    /// The response that a document holds, if it holds one.
    pub fn from_json(document: &Json) -> (r: Option<CourseSelectionResponseBody>)
        ensures
            match r {
                Some(response) => response_of(document@) == Some(response@),
                None => response_of(document@) is None,
            },
    {
        let added = match document.member("ecrnResultList") {
            Some(list) => list,
            None => return None,
        };
        let dropped = match document.member("scrnResultList") {
            Some(list) => list,
            None => return None,
        };
        let ecrn_result_list = match read_added(added) {
            Some(outcomes) => outcomes,
            None => return None,
        };
        let scrn_result_list = match read_dropped(dropped) {
            Some(outcomes) => outcomes,
            None => return None,
        };
        Some(CourseSelectionResponseBody { ecrn_result_list, scrn_result_list })
    }

    /// Decodes a response body. It fails on a body that is no JSON and on
    /// one that is not shaped as a response, and on no other.
    pub fn from_slice(body: &[u8]) -> (r: Result<CourseSelectionResponseBody, DecodeError>)
        ensures
            match r {
                Ok(response) => response_in(body@) == Ok::<ResponseView, DecodeError>(response@),
                Err(error) => response_in(body@) == Err::<ResponseView, DecodeError>(error),
            },
    {
        match read_document(body) {
            None => Err(DecodeError::Syntax),
            Some(document) => match CourseSelectionResponseBody::from_json(&document) {
                None => Err(DecodeError::Shape),
                Some(response) => Ok(response),
            },
        }
    }

    /// The response in words, for the user.
    pub fn to_string(&self) -> (r: String)
        ensures
            r@ == response_text(self@),
    {
        let mut out = "Eklenen CRN Sonuçları\n".to_owned();
        let mut i: usize = 0;
        while i < self.ecrn_result_list.len()
            invariant
                i <= self.ecrn_result_list.len(),
                out@ == "Eklenen CRN Sonuçları\n"@ + outcome_lines(self@.added, i as nat),
            decreases self.ecrn_result_list.len() - i,
        {
            let line = self.ecrn_result_list[i].to_string();
            out.append(line.as_str());
            out.append("\n");
            i += 1;
        }
        out.append("Çıkarılan CRN Sonuçları\n");
        let mut k: usize = 0;
        while k < self.scrn_result_list.len()
            invariant
                k <= self.scrn_result_list.len(),
                out@ == "Eklenen CRN Sonuçları\n"@ + outcome_lines(
                    self@.added,
                    self@.added.len(),
                ) + "Çıkarılan CRN Sonuçları\n"@ + outcome_lines(self@.dropped, k as nat),
            decreases self.scrn_result_list.len() - k,
        {
            let line = self.scrn_result_list[k].to_string();
            out.append(line.as_str());
            out.append("\n");
            k += 1;
        }
        out
    }
}

} // verus!
