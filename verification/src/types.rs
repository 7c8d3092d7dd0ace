//! The data that the admissions service hands out, as plain values.
//!
//! Quantities that the service reports as decimal fractions are held as
//! integers in a fixed unit: a GPA in thousandths of a grade point, a
//! coordinate in millionths of a degree.

use crate::address::url_parsed;
use crate::endpoint::{
    bearer_text, fault_text, plan, resolve_api_base, resource_address, AuthEndpoint, Endpoint,
    EndpointType, Method, PublicEndpoint, Request, NO_API_HOST,
};
use crate::util::{
    is_on_sat_scale, on_sat_scale, same_text, sat_floor, sat_to_act, strip_prefix, strip_suffix,
    stripped_prefix, stripped_suffix,
};
use crate::Error;
use std::marker::PhantomData;
use vstd::prelude::*;

verus! {

/// The decision plan under which an application was submitted.
#[derive(Debug, Clone, Copy, PartialEq, Eq, Hash, Structural)]
pub enum TypeName {
    /// Restrictive early action.
    REA,
    /// Early action.
    EA,
    /// Early action, second round.
    EA2,
    /// Early decision.
    ED,
    /// Early decision, second round.
    ED2,
    /// Regular decision.
    RD,
    /// Rolling admission.
    ROLL,
    /// Any other plan that the service names.
    OTH,
    /// The plan is absent or not one that is known.
    Unknown,
}

/// The number of decision plans.
pub const TYPE_NAME_COUNT: usize = 9;

impl TypeName {
    /// The position of the plan in the fixed order in which plans are
    /// listed.
    pub open spec fn spec_index(self) -> int {
        match self {
            TypeName::REA => 0,
            TypeName::EA => 1,
            TypeName::EA2 => 2,
            TypeName::ED => 3,
            TypeName::ED2 => 4,
            TypeName::RD => 5,
            TypeName::ROLL => 6,
            TypeName::OTH => 7,
            TypeName::Unknown => 8,
        }
    }

    /// The plan at position `i` of the fixed order; `Unknown` beyond it.
    pub open spec fn spec_from_index(i: int) -> TypeName {
        if i == 0 {
            TypeName::REA
        } else if i == 1 {
            TypeName::EA
        } else if i == 2 {
            TypeName::EA2
        } else if i == 3 {
            TypeName::ED
        } else if i == 4 {
            TypeName::ED2
        } else if i == 5 {
            TypeName::RD
        } else if i == 6 {
            TypeName::ROLL
        } else if i == 7 {
            TypeName::OTH
        } else {
            TypeName::Unknown
        }
    }

    /// The position of the plan in the fixed order.
    pub fn index(self) -> (i: usize)
        ensures
            i == self.spec_index(),
            i < TYPE_NAME_COUNT,
            TypeName::spec_from_index(i as int) == self,
    {
        match self {
            TypeName::REA => 0,
            TypeName::EA => 1,
            TypeName::EA2 => 2,
            TypeName::ED => 3,
            TypeName::ED2 => 4,
            TypeName::RD => 5,
            TypeName::ROLL => 6,
            TypeName::OTH => 7,
            TypeName::Unknown => 8,
        }
    }

    /// The plan at position `i` of the fixed order, if there is one.
    pub fn from_index(i: usize) -> (plan: Option<TypeName>)
        ensures
            i < TYPE_NAME_COUNT ==> plan == Some(TypeName::spec_from_index(i as int)),
            i < TYPE_NAME_COUNT ==> TypeName::spec_from_index(i as int).spec_index() == i,
            i >= TYPE_NAME_COUNT ==> plan is None,
    {
        match i {
            0 => Some(TypeName::REA),
            1 => Some(TypeName::EA),
            2 => Some(TypeName::EA2),
            3 => Some(TypeName::ED),
            4 => Some(TypeName::ED2),
            5 => Some(TypeName::RD),
            6 => Some(TypeName::ROLL),
            7 => Some(TypeName::OTH),
            8 => Some(TypeName::Unknown),
            _ => None,
        }
    }

    /// The tag by which the service names the plan.
    pub open spec fn spec_tag(self) -> Seq<char> {
        match self {
            TypeName::REA => "REA"@,
            TypeName::EA => "EA"@,
            TypeName::EA2 => "EA2"@,
            TypeName::ED => "ED"@,
            TypeName::ED2 => "ED2"@,
            TypeName::RD => "RD"@,
            TypeName::ROLL => "ROLL"@,
            TypeName::OTH => "OTH"@,
            TypeName::Unknown => "Unknown"@,
        }
    }

    /// The plan that the service names by `tag`; `Unknown` where the tag is
    /// none of the service's.
    pub open spec fn spec_from_tag(tag: Seq<char>) -> TypeName {
        if tag == "REA"@ {
            TypeName::REA
        } else if tag == "EA"@ {
            TypeName::EA
        } else if tag == "EA2"@ {
            TypeName::EA2
        } else if tag == "ED"@ {
            TypeName::ED
        } else if tag == "ED2"@ {
            TypeName::ED2
        } else if tag == "RD"@ {
            TypeName::RD
        } else if tag == "ROLL"@ {
            TypeName::ROLL
        } else if tag == "OTH"@ {
            TypeName::OTH
        } else {
            TypeName::Unknown
        }
    }

    /// The tag by which the service names the plan.
    pub fn tag(self) -> (tag: &'static str)
        ensures
            tag@ == self.spec_tag(),
    {
        match self {
            TypeName::REA => "REA",
            TypeName::EA => "EA",
            TypeName::EA2 => "EA2",
            TypeName::ED => "ED",
            TypeName::ED2 => "ED2",
            TypeName::RD => "RD",
            TypeName::ROLL => "ROLL",
            TypeName::OTH => "OTH",
            TypeName::Unknown => "Unknown",
        }
    }

    /// Reads the plan from the tag by which the service names it. A tag
    /// that is none of the service's is no error: it stands for `Unknown`.
    pub fn from_tag(tag: &str) -> (plan: TypeName)
        ensures
            plan == TypeName::spec_from_tag(tag@),
    {
        if same_text(tag, "REA") {
            TypeName::REA
        } else if same_text(tag, "EA") {
            TypeName::EA
        } else if same_text(tag, "EA2") {
            TypeName::EA2
        } else if same_text(tag, "ED") {
            TypeName::ED
        } else if same_text(tag, "ED2") {
            TypeName::ED2
        } else if same_text(tag, "RD") {
            TypeName::RD
        } else if same_text(tag, "ROLL") {
            TypeName::ROLL
        } else if same_text(tag, "OTH") {
            TypeName::OTH
        } else {
            TypeName::Unknown
        }
    }

    /// The plan of an application whose plan field holds `tag`: the field's
    /// own value, and `Unknown` where the field is empty.
    pub fn or_unknown(tag: Option<TypeName>) -> (plan: TypeName)
        ensures
            plan == spec_or_unknown(tag),
    {
        match tag {
            Some(plan) => plan,
            None => TypeName::Unknown,
        }
    }
}

/// The plan that an application counts under: the one it names, and
/// `Unknown` where it names none.
pub open spec fn spec_or_unknown(tag: Option<TypeName>) -> TypeName {
    match tag {
        Some(plan) => plan,
        None => TypeName::Unknown,
    }
}

/// Positions and plans correspond one to one.
pub proof fn lemma_index_round_trip(plan: TypeName, i: int)
    ensures
        0 <= plan.spec_index() < TYPE_NAME_COUNT,
        TypeName::spec_from_index(plan.spec_index()) == plan,
        0 <= i < TYPE_NAME_COUNT ==> TypeName::spec_from_index(i).spec_index() == i,
{
}

/// Reading the tag of a plan gives the plan again, and no two plans share
/// a tag.
pub proof fn lemma_tag_round_trip(plan: TypeName, other: TypeName)
    ensures
        TypeName::spec_from_tag(plan.spec_tag()) == plan,
        plan.spec_tag() == other.spec_tag() ==> plan == other,
{
    reveal_strlit("REA");
    reveal_strlit("EA");
    reveal_strlit("EA2");
    reveal_strlit("ED");
    reveal_strlit("ED2");
    reveal_strlit("RD");
    reveal_strlit("ROLL");
    reveal_strlit("OTH");
    reveal_strlit("Unknown");
    assert("REA"@.len() == 3 && "EA"@.len() == 2 && "EA2"@.len() == 3 && "ED"@.len() == 2);
    assert("ED2"@.len() == 3 && "RD"@.len() == 2 && "ROLL"@.len() == 4 && "OTH"@.len() == 3);
    assert("Unknown"@.len() == 7);
    assert("REA"@[0] == 'R' && "EA2"@[0] == 'E' && "ED2"@[0] == 'E' && "OTH"@[0] == 'O');
    assert("EA2"@[1] == 'A' && "ED2"@[1] == 'D');
    assert("EA"@[0] == 'E' && "ED"@[0] == 'E' && "RD"@[0] == 'R');
    assert("EA"@[1] == 'A' && "ED"@[1] == 'D');
}

/// A scale on which a standardised test is scored.
pub trait TestType {

}

/// The ACT scale.
#[derive(Debug, Clone, Copy, PartialEq)]
pub struct ACT;

impl TestType for ACT {

}

/// The SAT scale.
#[derive(Debug, Clone, Copy, PartialEq)]
pub struct SAT;

impl TestType for SAT {

}

/// One historical application, as the service records it for the test
/// scale `T`.
#[derive(Debug, PartialEq)]
pub struct App<T: TestType> {
    pub current_student: Option<bool>,
    pub decision_type: Option<TypeName>,
    pub act_composite: Option<u32>,
    pub act_composite_student: Option<u32>,
    pub highest_combo_sat: Option<u32>,
    pub student_sat1600_composite: Option<u32>,
    /// The applicant's GPA, in thousandths of a grade point.
    pub gpa: Option<u32>,
    pub marker: PhantomData<T>,
}

impl<T: TestType> Clone for App<T> {
    fn clone(&self) -> (out: Self)
        ensures
            out == *self,
    {
        App {
            current_student: self.current_student,
            decision_type: self.decision_type,
            act_composite: self.act_composite,
            act_composite_student: self.act_composite_student,
            highest_combo_sat: self.highest_combo_sat,
            student_sat1600_composite: self.student_sat1600_composite,
            gpa: self.gpa,
            marker: PhantomData,
        }
    }
}

impl<T: TestType> Copy for App<T> {

}

impl App<SAT> {
    /// Whether the application can be restated on the ACT scale: its SAT
    /// total, if it has one, is one that the concordance table covers.
    pub open spec fn convertible(&self) -> bool {
        match self.highest_combo_sat {
            Some(sat) => on_sat_scale(sat as int),
            None => true,
        }
    }

    /// Whether the application can be restated on the ACT scale.
    pub fn is_convertible(&self) -> (yes: bool)
        ensures
            yes == self.convertible(),
    {
        match self.highest_combo_sat {
            Some(sat) => is_on_sat_scale(sat),
            None => true,
        }
    }

    /// The application restated on the ACT scale. The composite is the one
    /// whose band holds the SAT total; the composite that the student
    /// reported is dropped; every other field is kept.
    pub fn to_act(&self) -> (out: App<ACT>)
        requires
            self.convertible(),
        ensures
            out.current_student == self.current_student,
            out.decision_type == self.decision_type,
            out.act_composite_student is None,
            out.highest_combo_sat == self.highest_combo_sat,
            out.student_sat1600_composite == self.student_sat1600_composite,
            out.gpa == self.gpa,
            self.highest_combo_sat is None <==> out.act_composite is None,
            match (self.highest_combo_sat, out.act_composite) {
                (Some(sat), Some(act)) => crate::util::act_of_sat(sat as int) == act && sat_floor(
                    act as int,
                ) <= sat < sat_floor(act + 1),
                _ => true,
            },
    {
        let act_composite = match self.highest_combo_sat {
            Some(sat) => Some(sat_to_act(sat)),
            None => None,
        };
        App {
            current_student: self.current_student,
            decision_type: self.decision_type,
            act_composite,
            act_composite_student: None,
            highest_combo_sat: self.highest_combo_sat,
            student_sat1600_composite: self.student_sat1600_composite,
            gpa: self.gpa,
            marker: PhantomData,
        }
    }
}

/// The applications to one school, grouped by how they ended.
#[derive(Debug, Clone, PartialEq)]
pub struct Apps<T: TestType> {
    pub denied: Option<Vec<App<T>>>,
    pub waitlisted_denied: Option<Vec<App<T>>>,
    pub waitlisted_accepted: Option<Vec<App<T>>>,
    pub waitlisted_unknown: Option<Vec<App<T>>>,
    pub accepted: Option<Vec<App<T>>>,
}

/// The applications of one group; none where the group is absent.
pub open spec fn group<T: TestType>(field: Option<Vec<App<T>>>) -> Seq<App<T>> {
    match field {
        Some(list) => list@,
        None => Seq::empty(),
    }
}

/// The applications that `refs` points to, in order.
pub open spec fn pointees<T: TestType>(refs: Seq<&App<T>>) -> Seq<App<T>> {
    refs.map_values(|app: &App<T>| *app)
}

impl<T: TestType> Apps<T> {
    /// The applications that ended in admission: those accepted outright,
    /// then those accepted from the waitlist.
    pub open spec fn spec_accepted(&self) -> Seq<App<T>> {
        group(self.accepted) + group(self.waitlisted_accepted)
    }

    /// The applications that did not end in admission: those denied
    /// outright, then those left on the waitlist, then those denied from
    /// it.
    pub open spec fn spec_denied(&self) -> Seq<App<T>> {
        group(self.denied) + group(self.waitlisted_unknown) + group(self.waitlisted_denied)
    }

    /// Every application: the admitted ones, then the others.
    pub open spec fn spec_all(&self) -> Seq<App<T>> {
        self.spec_accepted() + self.spec_denied()
    }

    /// Every application, the admitted ones first.
    pub fn all(&self) -> (out: Vec<&App<T>>)
        ensures
            pointees(out@) == self.spec_all(),
            out@.len() == self.spec_accepted().len() + self.spec_denied().len(),
    {
        let mut total = self.accepted();
        let denied = self.denied();
        let ghost before = total@;
        let mut i: usize = 0;
        while i < denied.len()
            invariant
                i <= denied@.len(),
                total@ == before + denied@.take(i as int),
            decreases denied@.len() - i,
        {
            total.push(denied[i]);
            assert(denied@.take(i + 1) == denied@.take(i as int).push(denied@[i as int]));
            i = i + 1;
        }
        proof {
            assert(denied@.take(denied@.len() as int) == denied@);
            assert(pointees(before + denied@) == pointees(before) + pointees(denied@));
        }
        total
    }

    /// The applications that did not end in admission.
    pub fn denied(&self) -> (out: Vec<&App<T>>)
        ensures
            pointees(out@) == self.spec_denied(),
    {
        let mut total_denied: Vec<&App<T>> = Vec::new();
        assert(pointees(total_denied@) == Seq::<App<T>>::empty());
        append_group(&mut total_denied, &self.denied);
        append_group(&mut total_denied, &self.waitlisted_unknown);
        append_group(&mut total_denied, &self.waitlisted_denied);
        assert(Seq::<App<T>>::empty() + group(self.denied) == group(self.denied));
        total_denied
    }

    /// The applications that ended in admission.
    pub fn accepted(&self) -> (out: Vec<&App<T>>)
        ensures
            pointees(out@) == self.spec_accepted(),
    {
        let mut total_accepted: Vec<&App<T>> = Vec::new();
        assert(pointees(total_accepted@) == Seq::<App<T>>::empty());
        append_group(&mut total_accepted, &self.accepted);
        append_group(&mut total_accepted, &self.waitlisted_accepted);
        assert(Seq::<App<T>>::empty() + group(self.accepted) == group(self.accepted));
        total_accepted
    }
}

/// Appends a reference to each application of `field`, in order.
fn append_group<'a, T: TestType>(out: &mut Vec<&'a App<T>>, field: &'a Option<Vec<App<T>>>)
    ensures
        pointees(final(out)@) == pointees(old(out)@) + group(*field),
{
    let ghost before = out@;
    match field {
        Some(list) => {
            let mut i: usize = 0;
            while i < list.len()
                invariant
                    i <= list@.len(),
                    pointees(out@) == pointees(before) + list@.take(i as int),
                decreases list@.len() - i,
            {
                let ghost prior = out@;
                out.push(&list[i]);
                assert(pointees(prior.push(&list@[i as int])) == pointees(prior).push(
                    list@[i as int],
                ));
                assert(list@.take(i + 1) == list@.take(i as int).push(list@[i as int]));
                i = i + 1;
            }
            assert(list@.take(list@.len() as int) == list@);
        },
        None => {
            assert(pointees(before) + Seq::<App<T>>::empty() == pointees(before));
        },
    }
}

/// The service's own configuration, as its front end publishes it.
#[derive(Debug, Clone, PartialEq)]
pub struct Config {
    pub api_host: Option<String>,
    pub cpui_url: Option<String>,
    pub in_product_messaging_url: Option<String>,
    pub careers2_ui_url: Option<String>,
    pub hubsui_url: Option<String>,
    pub eventsui_url: Option<String>,
    pub scholarshipsui_url: Option<String>,
    pub naviancescholarshipsui_url: Option<String>,
    pub naviancesurveysui_url: Option<String>,
    pub supermatchui_url: Option<String>,
    pub activematchui_url: Option<String>,
    pub feedback_url: Option<String>,
    pub recaptcha_site_key: Option<String>,
    pub inline_manual_url: Option<String>,
    pub common_app_base_url: Option<String>,
    pub heap_analytics_api_code: Option<u32>,
    pub readiness_indicators_ui_url: Option<String>,
    pub phrase_batch_limit: Option<u32>,
    pub headed2_ui_url: Option<String>,
    pub headed2_token_exchange_url: Option<String>,
    pub local_opportunities_url: Option<String>,
    pub headed2_api_domain: Option<String>,
    pub headed2_app_base_url: Option<String>,
    pub my_pathways_ui_url: Option<String>,
    pub my_portfolio_ui_url: Option<String>,
    pub unified_user_login_url: Option<String>,
    pub ingest_raw_event_cta_app_base_url: Option<String>,
    pub portal_api_host: Option<String>,
    pub appily_match_ui_url: Option<String>,
    pub appily_match_api_url: Option<String>,
    pub chatterbox_ui_url: Option<String>,
    pub ace_chatbot_ui_url: Option<String>,
    pub ds_api_url: Option<String>,
    pub ds_api_temp_token: Option<String>,
}

/// What stands before the configuration's data in the script that
/// publishes it.
pub const CONFIG_PREFIX: &'static str = "window.REWRITTEN_CONFIG = ";

/// What stands after the configuration's data.
pub const CONFIG_SUFFIX: &'static str = ";";

/// The message of the error for a script that does not start as expected.
pub const CONFIG_PREFIX_MISSING: &'static str = "config.js prefix not found";

/// The message of the error for a script that does not end as expected.
pub const CONFIG_SUFFIX_MISSING: &'static str = "config.js suffix not found";

impl Endpoint for Config {
    open spec fn spec_path() -> Seq<char> {
        "/rewritten_config.js"@
    }

    open spec fn spec_method() -> Method {
        Method::Get
    }

    /// The data stands between the assignment that opens the script and
    /// the semicolon that closes it.
    open spec fn spec_payload(body: Seq<char>) -> core::result::Result<Seq<char>, Seq<char>> {
        match stripped_prefix(body, CONFIG_PREFIX@) {
            None => Err(CONFIG_PREFIX_MISSING@),
            Some(rest) => match stripped_suffix(rest, CONFIG_SUFFIX@) {
                None => Err(CONFIG_SUFFIX_MISSING@),
                Some(data) => Ok(data),
            },
        }
    }

    fn path() -> (path: &'static str) {
        "/rewritten_config.js"
    }

    fn method() -> (method: Method) {
        Method::Get
    }

    fn extract(body: &str) -> (out: core::result::Result<String, Error>) {
        match strip_prefix(body, CONFIG_PREFIX) {
            None => Err(Error::Decode(CONFIG_PREFIX_MISSING.to_owned())),
            Some(rest) => match strip_suffix(rest, CONFIG_SUFFIX) {
                None => Err(Error::Decode(CONFIG_SUFFIX_MISSING.to_owned())),
                Some(data) => Ok(data.to_owned()),
            },
        }
    }
}

impl PublicEndpoint for Config {

}

impl Config {
    /// The base address of the service that this configuration names.
    pub fn api_base(&self) -> (out: core::result::Result<String, Error>)
        ensures
            match self.api_host {
                None => out matches Err(Error::Configuration(message)) && message@ == NO_API_HOST@,
                Some(host) => match url_parsed(host@) {
                    Some(address) => out matches Ok(base) && base@ == address,
                    None => out matches Err(Error::Configuration(_)),
                },
            },
    {
        match &self.api_host {
            None => resolve_api_base(None),
            Some(host) => resolve_api_base(Some(host.as_str())),
        }
    }
}

/// One page of a list.
#[derive(Debug, Clone, PartialEq)]
pub struct Paged<T> {
    pub page: Option<u32>,
    pub limit: Option<u32>,
    pub total_items: Option<u32>,
    pub total_pages: Option<u32>,
    pub data: Vec<T>,
}

/// The schools on the student's list.
pub type SchoolsImThinkingAbout = Paged<School>;

impl Endpoint for Paged<School> {
    open spec fn spec_path() -> Seq<char> {
        "/college/colleges-im-thinking-about"@
    }

    open spec fn spec_method() -> Method {
        Method::Get
    }

    open spec fn spec_payload(body: Seq<char>) -> core::result::Result<Seq<char>, Seq<char>> {
        Ok(body)
    }

    fn path() -> (path: &'static str) {
        "/college/colleges-im-thinking-about"
    }

    fn method() -> (method: Method) {
        Method::Get
    }

    fn extract(body: &str) -> (out: core::result::Result<String, Error>) {
        Ok(body.to_owned())
    }
}

impl AuthEndpoint for Paged<School> {

}

/// A day of the calendar.
#[derive(Debug, Clone, Copy, PartialEq, Eq)]
pub struct Date {
    pub year: i32,
    pub month: u32,
    pub day: u32,
}

/// A school on the student's list.
#[derive(Debug, Clone, PartialEq)]
pub struct School {
    pub id: Option<u32>,
    pub interest_level: Option<u32>,
    pub expected_outcome: Option<u32>,
    pub added_by_type: Option<u32>,
    pub date_added: Option<Date>,
    pub college_id: Option<String>,
    pub college: Option<College>,
    pub expected_outcome_label: Option<String>,
    pub interest_level_label: Option<String>,
}

/// The name under which a school without a name is shown.
pub const NO_NAME: &'static str = "NO NAME";

impl School {
    /// The name of the school's college; [`NO_NAME`] where the school has
    /// no college or the college has no name.
    pub open spec fn spec_display_name(&self) -> Seq<char> {
        match self.college {
            Some(college) => match college.name {
                Some(name) => name@,
                None => NO_NAME@,
            },
            None => NO_NAME@,
        }
    }

    /// The identifier under which the school's statistics are kept; none
    /// where the school has no college or the college has no identifier.
    pub open spec fn spec_uuid(&self) -> Option<u128> {
        match self.college {
            Some(college) => college.uuid,
            None => None,
        }
    }

    /// The name under which the school is shown.
    pub fn display_name(&self) -> (name: &str)
        ensures
            name@ == self.spec_display_name(),
    {
        match &self.college {
            Some(college) => match &college.name {
                Some(name) => name.as_str(),
                None => NO_NAME,
            },
            None => NO_NAME,
        }
    }

    /// The identifier under which the school's statistics are kept. A
    /// school without one has no statistics to fetch.
    pub fn uuid(&self) -> (id: Option<u128>)
        ensures
            id == self.spec_uuid(),
    {
        match &self.college {
            Some(college) => college.uuid,
            None => None,
        }
    }
}

/// A college, as the service describes it.
#[derive(Debug, Clone, PartialEq)]
pub struct College {
    pub featured: Option<bool>,
    pub id: Option<String>,
    pub hobsons_id: Option<u32>,
    pub name: Option<String>,
    pub nces_id: Option<String>,
    pub short_name: Option<String>,
    pub nickname: Option<String>,
    pub alpha_name: Option<String>,
    pub address_line1: Option<String>,
    pub city: Option<String>,
    pub state: Option<String>,
    pub country: Option<String>,
    /// In millionths of a degree.
    pub longitude: Option<i64>,
    /// In millionths of a degree.
    pub latitude: Option<i64>,
    pub url: Option<String>,
    pub sector: Option<u32>,
    pub admissions_email: Option<String>,
    pub intl_admissions_email: Option<String>,
    pub ssr_required: Option<bool>,
    pub teacher_recs_required: Option<bool>,
    pub initial_transcript_required: Option<bool>,
    pub is_college_active: Option<bool>,
    pub parchment_id: Option<String>,
    pub edocs_college: Option<EdocsCollege>,
    pub school_area: Option<SchoolArea>,
    pub core_mapping: Option<CoreMapping>,
    pub deadlines: Option<Vec<Deadline>>,
    pub address_line2: Option<String>,
    /// The college's identifier, as a 128-bit number.
    pub uuid: Option<u128>,
}

impl Endpoint for College {
    open spec fn spec_path() -> Seq<char> {
        "/college/uuid"@
    }

    open spec fn spec_method() -> Method {
        Method::Get
    }

    open spec fn spec_payload(body: Seq<char>) -> core::result::Result<Seq<char>, Seq<char>> {
        Ok(body)
    }

    fn path() -> (path: &'static str) {
        "/college/uuid"
    }

    fn method() -> (method: Method) {
        Method::Get
    }

    fn extract(body: &str) -> (out: core::result::Result<String, Error>) {
        Ok(body.to_owned())
    }
}

impl College {
    /// Plans the request for the college with the identifier `uuid` at the
    /// service with the base address `api`. The identifier is the last
    /// segment of the address, and the credential `token` goes out with
    /// the request.
    pub fn request(api: &str, token: &str, uuid: u128) -> (out: core::result::Result<
        Request,
        Error,
    >)
        ensures
            out is Ok <==> resource_address(api@, Self::spec_path(), Some(uuid)) is Ok,
            out is Ok ==> out->Ok_0.method == Method::Get && out->Ok_0.url@ == resource_address(
                api@,
                Self::spec_path(),
                Some(uuid),
            )->Ok_0 && bearer_text(out->Ok_0.bearer) == Some(token@),
            out is Err ==> (out matches Err(Error::Configuration(message)) && message@
                == fault_text(resource_address(api@, Self::spec_path(), Some(uuid))->Err_0)),
    {
        plan(EndpointType::Auth, Self::method(), api, Self::path(), Some(uuid), Some(token))
    }
}

/// The identifier of a college in the service's core records.
#[derive(Debug, Clone, Copy, PartialEq)]
pub struct CoreMapping {
    /// The identifier, as a 128-bit number.
    pub uuid: Option<u128>,
}

/// An application deadline of a college.
#[derive(Debug, Clone, PartialEq)]
pub struct Deadline {
    pub id: Option<u32>,
    pub day: Option<u32>,
    pub month: Option<u32>,
    pub deadline_label: Option<String>,
    pub college_id: Option<String>,
    pub deadline_type_id: Option<u32>,
    pub deadline_term_description: Option<String>,
    pub deadline_type: Option<String>,
    pub label: Option<String>,
    pub deadline_date: Option<String>,
}

/// How a college takes documents.
#[derive(Debug, Clone, PartialEq)]
pub struct EdocsCollege {
    pub is_electronic: Option<bool>,
    pub college_id: Option<String>,
    pub commonapp_id: Option<u32>,
    pub commonapp_is_exclusive: Option<bool>,
    pub coalition_app_type: Option<bool>,
    pub ceeb_code: Option<String>,
    pub delivery_type: Option<String>,
}

/// The area that a college belongs to.
#[derive(Debug, Clone, Copy, PartialEq)]
pub struct SchoolArea {
    pub hobsons_id: Option<u32>,
    pub area_id: Option<u32>,
}

/// The colleges for which the student's school has statistics.
pub type ScattergramSources = Vec<ScattergramSource>;

impl Endpoint for Vec<ScattergramSource> {
    open spec fn spec_path() -> Seq<char> {
        "/college/scattergram"@
    }

    open spec fn spec_method() -> Method {
        Method::Get
    }

    open spec fn spec_payload(body: Seq<char>) -> core::result::Result<Seq<char>, Seq<char>> {
        Ok(body)
    }

    fn path() -> (path: &'static str) {
        "/college/scattergram"
    }

    fn method() -> (method: Method) {
        Method::Get
    }

    fn extract(body: &str) -> (out: core::result::Result<String, Error>) {
        Ok(body.to_owned())
    }
}

impl AuthEndpoint for Vec<ScattergramSource> {

}

/// A college for which the student's school has statistics.
#[derive(Debug, Clone, PartialEq)]
pub struct ScattergramSource {
    pub id: Option<String>,
    pub name: Option<String>,
    pub core_mapping: Option<CoreMapping>,
    pub total_applying: Option<u32>,
}

/// The statistics of the applications from the student's school to one
/// college, with the student's own profile.
#[derive(Debug, Clone, PartialEq)]
pub struct ApplicationStatistics {
    pub scattergrams: Option<Scattergrams>,
    pub user_info: Option<UserInfo>,
}

impl Endpoint for ApplicationStatistics {
    open spec fn spec_path() -> Seq<char> {
        "/application-statistics/uuid"@
    }

    open spec fn spec_method() -> Method {
        Method::Get
    }

    open spec fn spec_payload(body: Seq<char>) -> core::result::Result<Seq<char>, Seq<char>> {
        Ok(body)
    }

    fn path() -> (path: &'static str) {
        "/application-statistics/uuid"
    }

    fn method() -> (method: Method) {
        Method::Get
    }

    fn extract(body: &str) -> (out: core::result::Result<String, Error>) {
        Ok(body.to_owned())
    }
}

impl ApplicationStatistics {
    /// Plans the request for the statistics of the college with the
    /// identifier `uuid` at the service with the base address `api`. The
    /// identifier is the last segment of the address, and the credential
    /// `token` goes out with the request.
    pub fn request(api: &str, token: &str, uuid: u128) -> (out: core::result::Result<
        Request,
        Error,
    >)
        ensures
            out is Ok <==> resource_address(api@, Self::spec_path(), Some(uuid)) is Ok,
            out is Ok ==> out->Ok_0.method == Method::Get && out->Ok_0.url@ == resource_address(
                api@,
                Self::spec_path(),
                Some(uuid),
            )->Ok_0 && bearer_text(out->Ok_0.bearer) == Some(token@),
            out is Err ==> (out matches Err(Error::Configuration(message)) && message@
                == fault_text(resource_address(api@, Self::spec_path(), Some(uuid))->Err_0)),
    {
        plan(EndpointType::Auth, Self::method(), api, Self::path(), Some(uuid), Some(token))
    }
}

/// The statistics by the kind of GPA that they are plotted against.
#[derive(Debug, Clone, PartialEq)]
pub struct Scattergrams {
    pub gpa: Option<GpaSpecific>,
    pub weighted_gpa: Option<GpaSpecific>,
}

/// The statistics for one kind of GPA. Sums and averages of GPAs are in
/// thousandths of a grade point.
#[derive(Debug, Clone, PartialEq)]
pub struct GpaSpecific {
    pub gpa_count: Option<u32>,
    pub gpa_sum: Option<u64>,
    pub gpa_avg: Option<u32>,
    pub gpa_conv_sum: Option<u64>,
    pub gpa_conv_avg: Option<u32>,
    pub act: Option<TestSpecific<ACT>>,
    pub sat: Option<TestSpecific<SAT>>,
}

/// The statistics for one test scale. The average of the scores is in
/// thousandths of a point; sums and averages of GPAs are in thousandths of
/// a grade point.
#[derive(Debug, Clone, PartialEq)]
pub struct TestSpecific<T: TestType> {
    pub count: Option<u32>,
    pub sum: Option<u32>,
    pub avg: Option<u32>,
    pub gpa_count: Option<u32>,
    pub gpa_sum: Option<u64>,
    pub gpa_avg: Option<u32>,
    pub gpa_conv_sum: Option<u64>,
    pub gpa_conv_avg: Option<u32>,
    pub apps: Option<Apps<T>>,
}

/// What the service knows of the student.
#[derive(Debug, Clone, Copy, PartialEq)]
pub struct UserInfo {
    pub user_id: Option<u32>,
    pub academics: Option<Academics>,
}

/// The student's academic record.
#[derive(Debug, Clone, Copy, PartialEq)]
pub struct Academics {
    /// In thousandths of a grade point.
    pub gpa: Option<u32>,
    /// The unweighted cumulative GPA, in thousandths of a grade point.
    pub raw_cumulative_gpa: Option<u32>,
    /// The weighted GPA as the service writes it, a whole number.
    pub raw_weighted_gpa: Option<u32>,
    pub sat: Option<u32>,
    pub psat: Option<u32>,
    pub act: Option<u32>,
}

} // verus!
