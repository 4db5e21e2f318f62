use catalog_dump::authority::{AuthorityObject, EmptyLookup, LookupObject, LookupOptions, ZoneType};
use catalog_dump::catalog::Catalog;
use catalog_dump::dump::Walk;
use catalog_dump::handler::{
    advance_authoritative, assemble_sections, dump_context, forwarded_sections, Section, finish_forwarded, lookup_for_step, soa_lookup, ZoneLookup, lookup_options_for_edns, plan_request, plan_response,
    start_authoritative, start_forwarded, update_response_header, update_result_code,
    AuthorityStep, LookupEvent, LookupFailure, LookupPlan, RequestPlan, ResponseMode, UpdatePlan,
    finish_authoritative, lookup_options_with_dnssec, record_lookup, start_authoritative_answer,
    AuthoritativeAnswer,
};
use catalog_dump::message::{
    error_header, rcode_high, response_from_request, EdnsInfo, MessageHeader, MessageType, OpCode,
    BADVERS, FORM_ERR, NOT_AUTH, NOT_IMP, NO_ERROR, NS, NX_DOMAIN, REFUSED, SERV_FAIL, SOA,
};
use catalog_dump::name::ZoneName;
use vstd::seq::Seq;

struct TestAuthority {
    origin: ZoneName,
    zone_type: ZoneType,
}

impl Walk for TestAuthority {
    fn walk_appends(&self, _out: Seq<u8>) -> bool {
        true
    }

    fn walk(&self, f: &mut Vec<u8>) {
        f.extend_from_slice(b"walked, ");
    }
}

impl AuthorityObject for TestAuthority {
    fn authority_dump_appends(&self, _out: Seq<u8>) -> bool {
        true
    }

    fn zone_kind(&self) -> ZoneType {
        self.zone_type
    }

    fn dump(&self, f: &mut Vec<u8>) {
        f.extend_from_slice(b"dumped, ");
    }

    fn zone_type(&self) -> ZoneType {
        self.zone_type
    }

    fn is_axfr_allowed(&self) -> bool {
        false
    }

    fn origin(&self) -> &ZoneName {
        &self.origin
    }
}

fn name(text: &str) -> ZoneName {
    ZoneName::parse(text).unwrap()
}

fn authority(text: &str, zone_type: ZoneType) -> TestAuthority {
    TestAuthority { origin: name(text), zone_type }
}

fn query_header() -> MessageHeader {
    MessageHeader {
        id: 0x1234,
        message_type: MessageType::Query,
        op_code: OpCode::Query,
        authoritative: true,
        truncation: true,
        recursion_desired: true,
        recursion_available: true,
        authentic_data: true,
        checking_disabled: true,
        response_code: SERV_FAIL,
    }
}

fn edns(version: u8, max_payload: u16) -> EdnsInfo {
    EdnsInfo { rcode_high: 0, version, dnssec_ok: false, max_payload }
}

#[test]
fn response_from_request_copies_id_and_flags() {
    let r = response_from_request(&query_header());
    assert_eq!(r.id, 0x1234);
    assert_eq!(r.message_type, MessageType::Response);
    assert_eq!(r.op_code, OpCode::Query);
    assert!(!r.authoritative && !r.truncation && !r.recursion_available && !r.authentic_data);
    assert!(r.recursion_desired && r.checking_disabled);
    assert_eq!(r.response_code, NO_ERROR);
}

#[test]
fn error_header_sets_the_code() {
    let r = error_header(&query_header(), REFUSED);
    assert_eq!(r.response_code, REFUSED);
    assert_eq!(r.message_type, MessageType::Response);
}

#[test]
fn rcode_high_takes_bits_four_to_eleven() {
    assert_eq!(rcode_high(BADVERS), 1);
    assert_eq!(rcode_high(NO_ERROR), 0);
    assert_eq!(rcode_high(0x0FF5), 0xFF);
    assert_eq!(rcode_high(0xF0A3), 0x0A);
}

#[test]
fn default_header_is_an_empty_query() {
    let h = MessageHeader::default();
    assert_eq!(h.id, 0);
    assert_eq!(h.message_type, MessageType::Query);
    assert_eq!(h.op_code, OpCode::Query);
    assert_eq!(h.response_code, NO_ERROR);
    assert!(!h.recursion_desired);
}

#[test]
fn newer_edns_version_is_refused_with_badvers() {
    let plan = plan_request(&query_header(), Some(edns(1, 100)));
    match plan {
        RequestPlan::BadVersion { header, version_edns } => {
            assert_eq!(header.response_code, BADVERS);
            assert_eq!(header.id, 0x1234);
            assert_eq!(version_edns.rcode_high, 1);
            assert_eq!(version_edns.version, 0);
            assert!(version_edns.dnssec_ok);
            assert_eq!(version_edns.max_payload, 512);
        }
        other => panic!("unexpected plan {:?}", other),
    }
}

#[test]
fn query_is_looked_up_with_answer_edns() {
    assert_eq!(
        plan_request(&query_header(), Some(edns(0, 4096))),
        RequestPlan::Lookup {
            edns: Some(EdnsInfo { rcode_high: 0, version: 0, dnssec_ok: true, max_payload: 4096 })
        }
    );
    assert_eq!(plan_request(&query_header(), None), RequestPlan::Lookup { edns: None });
}

#[test]
fn small_payload_is_raised_to_512() {
    match plan_request(&query_header(), Some(edns(0, 100))) {
        RequestPlan::Lookup { edns: Some(e) } => assert_eq!(e.max_payload, 512),
        other => panic!("unexpected plan {:?}", other),
    }
}

#[test]
fn update_request_is_routed_to_update() {
    let mut h = query_header();
    h.op_code = OpCode::Update;
    assert_eq!(plan_request(&h, None), RequestPlan::Update { edns: None });
}

#[test]
fn other_op_codes_are_not_implemented() {
    let mut h = query_header();
    h.op_code = OpCode::Notify;
    assert_eq!(plan_request(&h, None), RequestPlan::Reject { header: error_header(&h, NOT_IMP) });
    h.op_code = OpCode::Status;
    assert_eq!(plan_request(&h, None), RequestPlan::Reject { header: error_header(&h, NOT_IMP) });
}

#[test]
fn responses_as_requests_are_form_errors() {
    let mut h = query_header();
    h.message_type = MessageType::Response;
    let plan = plan_request(&h, Some(edns(0, 512)));
    assert_eq!(plan, RequestPlan::Reject { header: error_header(&h, FORM_ERR) });
}

fn catalog() -> Catalog<TestAuthority> {
    let mut c = Catalog::new();
    c.upsert(name("primary.test."), authority("primary.test.", ZoneType::Primary));
    c.upsert(name("master.test."), authority("master.test.", ZoneType::Master));
    c.upsert(name("secondary.test."), authority("secondary.test.", ZoneType::Secondary));
    c.upsert(name("slave.test."), authority("slave.test.", ZoneType::Slave));
    c.upsert(name("forward.test."), authority("forward.test.", ZoneType::Forward));
    c.upsert(name("hint.test."), authority("hint.test.", ZoneType::Hint));
    c
}

#[derive(Debug, PartialEq)]
enum Outcome {
    Code(u16),
    Forward(String),
    Apply(String),
}

fn origin_text(a: &TestAuthority) -> String {
    a.origin()
        .labels()
        .iter()
        .map(|l| String::from_utf8(l.clone()).unwrap())
        .collect::<Vec<_>>()
        .join(".")
}

fn update_outcome(c: &Catalog<TestAuthority>, zone_count: usize, zone_type: u16, zone: &str) -> Outcome {
    match c.plan_update(zone_count, zone_type, &name(zone)) {
        UpdatePlan::Respond(code) => Outcome::Code(code),
        UpdatePlan::Forward(a) => Outcome::Forward(origin_text(a)),
        UpdatePlan::Apply(a) => Outcome::Apply(origin_text(a)),
    }
}

#[test]
fn update_needs_an_soa_zone_section() {
    assert_eq!(update_outcome(&catalog(), 1, 1, "primary.test."), Outcome::Code(FORM_ERR));
}

#[test]
fn update_needs_exactly_one_zone() {
    assert_eq!(update_outcome(&catalog(), 0, SOA, "primary.test."), Outcome::Code(FORM_ERR));
    assert_eq!(update_outcome(&catalog(), 2, SOA, "primary.test."), Outcome::Code(FORM_ERR));
}

#[test]
fn update_of_a_zone_not_served_is_not_authoritative() {
    assert_eq!(update_outcome(&catalog(), 1, SOA, "example.org."), Outcome::Code(NOT_AUTH));
    let empty: Catalog<TestAuthority> = Catalog::new();
    assert_eq!(update_outcome(&empty, 1, SOA, "example.org."), Outcome::Code(NOT_AUTH));
    // a name inside a served zone does not name a zone of this server
    assert_eq!(update_outcome(&catalog(), 1, SOA, "www.primary.test."), Outcome::Code(NOT_AUTH));
}

#[test]
fn update_of_a_secondary_is_forwarded() {
    assert_eq!(update_outcome(&catalog(), 1, SOA, "secondary.test."), Outcome::Forward("secondary.test".to_string()));
    assert_eq!(update_outcome(&catalog(), 1, SOA, "slave.test."), Outcome::Forward("slave.test".to_string()));
}

#[test]
fn update_of_a_forward_zone_is_not_authoritative() {
    assert_eq!(update_outcome(&catalog(), 1, SOA, "forward.test."), Outcome::Code(NOT_AUTH));
    assert_eq!(update_outcome(&catalog(), 1, SOA, "hint.test."), Outcome::Code(NOT_AUTH));
}

#[test]
fn update_of_a_primary_is_applied() {
    assert_eq!(update_outcome(&catalog(), 1, SOA, "primary.test."), Outcome::Apply("primary.test".to_string()));
    assert_eq!(update_outcome(&catalog(), 1, SOA, "master.test."), Outcome::Apply("master.test".to_string()));
}

#[test]
fn update_result_and_header() {
    assert_eq!(update_result_code(Ok(true)), NO_ERROR);
    assert_eq!(update_result_code(Ok(false)), NO_ERROR);
    assert_eq!(update_result_code(Err(NX_DOMAIN)), NX_DOMAIN);
    let h = update_response_header(77, REFUSED);
    assert_eq!(h.id, 77);
    assert_eq!(h.op_code, OpCode::Update);
    assert_eq!(h.message_type, MessageType::Response);
    assert_eq!(h.response_code, REFUSED);
    assert!(!h.authoritative && !h.recursion_desired);
}

#[test]
fn lookup_finds_the_zone_or_refuses() {
    let c = catalog();
    match c.plan_lookup(&query_header(), &name("a.b.primary.test.")) {
        LookupPlan::Answer(a) => assert_eq!(a.zone_type(), ZoneType::Primary),
        LookupPlan::Refuse(_) => panic!("expected an answer"),
    }
    match c.plan_lookup(&query_header(), &name("example.org.")) {
        LookupPlan::Refuse(h) => assert_eq!(h, error_header(&query_header(), REFUSED)),
        LookupPlan::Answer(_) => panic!("expected a refusal"),
    }
}

#[test]
fn lookup_options_never_ask_for_dnssec() {
    assert_eq!(lookup_options_for_edns(None), LookupOptions { dnssec_ok: false });
    let mut e = edns(0, 4096);
    e.dnssec_ok = true;
    assert_eq!(lookup_options_for_edns(Some(e)), LookupOptions { dnssec_ok: false });
}

#[test]
fn authoritative_zones_answer_themselves() {
    let (h, mode) = plan_response(ZoneType::Secondary, &query_header());
    assert!(h.authoritative);
    assert_eq!(mode, ResponseMode::Authoritative);
    assert_eq!(h.id, 0x1234);
    let (h, mode) = plan_response(ZoneType::Forward, &query_header());
    assert!(!h.authoritative);
    assert_eq!(mode, ResponseMode::Forwarded);
    assert!(ZoneType::Master.is_authoritative());
    assert!(!ZoneType::Hint.is_authoritative());
}

const PLAIN: LookupOptions = LookupOptions { dnssec_ok: false };
const SECURE: LookupOptions = LookupOptions { dnssec_ok: true };

#[test]
fn found_answer_for_soa_fetches_name_servers() {
    let start = start_authoritative(response_from_request(&query_header()));
    assert_eq!(start.step, AuthorityStep::Search);
    let p = advance_authoritative(start, LookupEvent::Found, true, PLAIN);
    assert_eq!(p.step, AuthorityStep::NameServers);
    assert_eq!(p.header.response_code, NO_ERROR);
    assert!(p.header.authoritative && p.answers);
    let p = advance_authoritative(p, LookupEvent::Found, true, PLAIN);
    assert_eq!(p.step, AuthorityStep::Done);
    assert!(p.name_servers && !p.soa);
}

#[test]
fn found_answer_for_other_types_is_done() {
    let start = start_authoritative(response_from_request(&query_header()));
    let p = advance_authoritative(start, LookupEvent::Found, false, PLAIN);
    assert_eq!(p.step, AuthorityStep::Done);
    assert!(!p.name_servers);
    let again = advance_authoritative(p, LookupEvent::Failed(LookupFailure::Other), false, PLAIN);
    assert_eq!(again, p);
}

#[test]
fn refused_search_ends_with_refused() {
    let start = start_authoritative(response_from_request(&query_header()));
    let p = advance_authoritative(start, LookupEvent::Failed(LookupFailure::Refused), false, PLAIN);
    assert_eq!(p.step, AuthorityStep::Done);
    assert_eq!(p.header.response_code, REFUSED);
    assert!(!p.answers && !p.name_servers && !p.soa);
}

#[test]
fn missing_name_gets_nxdomain_and_soa() {
    let start = start_authoritative(response_from_request(&query_header()));
    let p = advance_authoritative(start, LookupEvent::Failed(LookupFailure::NxDomain), false, PLAIN);
    assert_eq!(p.step, AuthorityStep::Soa);
    assert_eq!(p.header.response_code, NX_DOMAIN);
    let p = advance_authoritative(p, LookupEvent::Found, false, PLAIN);
    assert_eq!(p.step, AuthorityStep::Done);
    assert!(p.soa && !p.answers);
    assert_eq!(p.header.response_code, NX_DOMAIN);
}

#[test]
fn dnssec_negative_answer_fetches_nsec_then_soa() {
    let mut header = response_from_request(&query_header());
    header.response_code = SERV_FAIL;
    let start = start_authoritative(header);
    let p = advance_authoritative(start, LookupEvent::Failed(LookupFailure::Other), false, SECURE);
    assert_eq!(p.step, AuthorityStep::Nsec);
    assert_eq!(p.header.response_code, SERV_FAIL);
    let p = advance_authoritative(p, LookupEvent::Found, false, SECURE);
    assert_eq!(p.step, AuthorityStep::Soa);
    assert!(p.name_servers);
    let p = advance_authoritative(p, LookupEvent::Failed(LookupFailure::Other), false, SECURE);
    assert_eq!(p.step, AuthorityStep::Done);
    assert!(!p.soa);
}

#[test]
fn existing_name_without_records_is_no_error() {
    let mut header = response_from_request(&query_header());
    header.response_code = SERV_FAIL;
    let p = advance_authoritative(
        start_authoritative(header),
        LookupEvent::Failed(LookupFailure::NameExists),
        false,
        PLAIN,
    );
    assert_eq!(p.header.response_code, NO_ERROR);
    assert_eq!(p.step, AuthorityStep::Soa);
}

#[test]
fn forwarded_answer_respects_recursion_desired() {
    let header = response_from_request(&query_header());
    let (h, resolve) = start_forwarded(header, &query_header());
    assert!(h.recursion_available && !h.authoritative);
    assert!(resolve);
    let mut no_recursion = query_header();
    no_recursion.recursion_desired = false;
    let (_, resolve) = start_forwarded(header, &no_recursion);
    assert!(!resolve);
}

#[test]
fn forwarded_outcomes() {
    let header = response_from_request(&query_header());
    assert_eq!(finish_forwarded(header, LookupEvent::Found), (header, true));
    let (h, found) = finish_forwarded(header, LookupEvent::Failed(LookupFailure::NxDomain));
    assert_eq!(h.response_code, NX_DOMAIN);
    assert!(!found);
    assert_eq!(finish_forwarded(header, LookupEvent::Failed(LookupFailure::Refused)), (header, false));
}

#[test]
fn empty_lookup_has_nothing() {
    let mut e = EmptyLookup;
    assert!(e.is_empty());
    assert!(e.take_additionals().is_none());
}

#[test]
fn authority_dump_and_walk_append() {
    let a = authority("primary.test.", ZoneType::Primary);
    let mut f = b"{".to_vec();
    AuthorityObject::dump(&a, &mut f);
    a.walk(&mut f);
    assert_eq!(f, b"{dumped, walked, ".to_vec());
    assert!(!a.is_axfr_allowed());
}

#[test]
fn context_dump_is_one_json_object() {
    let a = authority("primary.test.", ZoneType::Primary);
    let request: u8 = 7;
    let info: bool = true;
    let dump = String::from_utf8(dump_context("0x1", "0x2", "0x3", &a, &request, &info)).unwrap();
    let expected_start = "{\"%request_info\": { \"data\": [\"0x1\", \"0x2\"], \"base\": \"0x3\" }, dumped, walked, ";
    assert!(dump.starts_with(expected_start));
    assert!(dump.contains(&format!("\"{:p}\": {{ \"data\": [7], \"__size__\": 1, \"__type__\": \"unknown\" }}, ", &request)));
    assert!(dump.ends_with(&format!("\"{:p}\": {{ \"data\": [1], \"__size__\": 1, \"__type__\": \"unknown\" }}}}", &info)));
}

#[test]
fn each_step_names_its_lookup() {
    let query = name("www.example.com.");
    let origin = name("example.com.");
    assert!(matches!(lookup_for_step(AuthorityStep::Search, &query, &origin, SECURE), Some(ZoneLookup::Query { options: SECURE })));
    match lookup_for_step(AuthorityStep::NameServers, &query, &origin, SECURE) {
        Some(ZoneLookup::Records { name, record_type, options }) => {
            assert!(name.same_labels(&origin));
            assert_eq!(record_type, NS);
            assert_eq!(options, SECURE);
        }
        other => panic!("unexpected lookup {:?}", other),
    }
    match lookup_for_step(AuthorityStep::Nsec, &query, &origin, SECURE) {
        Some(ZoneLookup::Nsec { name, options }) => {
            assert!(name.same_labels(&query));
            assert_eq!(options, SECURE);
        }
        other => panic!("unexpected lookup {:?}", other),
    }
    match lookup_for_step(AuthorityStep::Soa, &query, &origin, PLAIN) {
        Some(ZoneLookup::Records { name, record_type, .. }) => {
            assert!(name.same_labels(&origin));
            assert_eq!(record_type, SOA);
        }
        other => panic!("unexpected lookup {:?}", other),
    }
    assert!(lookup_for_step(AuthorityStep::Done, &query, &origin, PLAIN).is_none());
    match soa_lookup(&origin) {
        ZoneLookup::Records { record_type, options, .. } => {
            assert_eq!(record_type, SOA);
            assert_eq!(options, PLAIN);
        }
        other => panic!("unexpected lookup {:?}", other),
    }
}

#[derive(Debug)]
struct Records {
    names: Vec<&'static str>,
    extra: Option<Vec<&'static str>>,
}

impl LookupObject for Records {
    fn pending_additionals(&self) -> Option<Self> {
        self.extra.clone().map(|names| Records { names, extra: None })
    }

    fn is_empty(&self) -> bool {
        self.names.is_empty()
    }

    fn take_additionals(&mut self) -> Option<Self> {
        self.extra.take().map(|names| Records { names, extra: None })
    }
}

fn records(names: Vec<&'static str>, extra: Option<Vec<&'static str>>) -> Records {
    Records { names, extra }
}

fn section_names(s: &Section<Records>) -> Option<Vec<&'static str>> {
    match s {
        Section::Records(r) => Some(r.names.clone()),
        Section::Empty => None,
    }
}

#[test]
fn answers_carry_their_additionals() {
    let sections = assemble_sections(Some(records(vec!["a"], Some(vec!["glue"]))), None, None);
    assert_eq!(section_names(&sections.answers), Some(vec!["a"]));
    assert_eq!(section_names(&sections.additionals), Some(vec!["glue"]));
    assert_eq!(section_names(&sections.ns), None);
    assert_eq!(section_names(&sections.soa), None);
    let sections = assemble_sections(Some(records(vec!["a"], None)), Some(records(vec!["ns"], None)), None);
    assert_eq!(section_names(&sections.additionals), None);
    assert_eq!(section_names(&sections.ns), Some(vec!["ns"]));
}

#[test]
fn negative_answer_has_soa_and_no_additionals() {
    let sections = assemble_sections(None, None, Some(records(vec!["soa"], Some(vec!["x"]))));
    assert_eq!(section_names(&sections.answers), None);
    assert_eq!(section_names(&sections.additionals), None);
    assert_eq!(section_names(&sections.soa), Some(vec!["soa"]));
    let empty = assemble_sections::<EmptyLookup>(None, None, None);
    assert!(matches!(empty.answers, Section::Empty));
}

#[test]
fn forwarded_answer_has_only_answers() {
    let sections = forwarded_sections(Some(records(vec!["fwd"], Some(vec!["x"]))));
    assert_eq!(section_names(&sections.answers), Some(vec!["fwd"]));
    assert_eq!(section_names(&sections.additionals), None);
    assert_eq!(section_names(&sections.ns), None);
    let none = forwarded_sections::<Records>(None);
    assert_eq!(section_names(&none.answers), None);
}

#[test]
fn dnssec_build_follows_the_request() {
    assert_eq!(lookup_options_with_dnssec(None), LookupOptions { dnssec_ok: false });
    let mut e = edns(0, 4096);
    assert_eq!(lookup_options_with_dnssec(Some(e)), LookupOptions { dnssec_ok: false });
    e.dnssec_ok = true;
    assert_eq!(lookup_options_with_dnssec(Some(e)), LookupOptions { dnssec_ok: true });
}

fn run(
    outcomes: Vec<Result<Records, LookupFailure>>,
    query_is_soa: bool,
    dnssec_ok: bool,
) -> (MessageHeader, catalog_dump::handler::LookupSections<Records>, AuthorityStep) {
    let options = LookupOptions { dnssec_ok };
    let mut answer: AuthoritativeAnswer<Records> = start_authoritative_answer(MessageHeader { authoritative: false, ..query_header() });
    for outcome in outcomes {
        answer = record_lookup(answer, outcome, query_is_soa, options);
    }
    let step = answer.progress.step;
    let (header, sections) = finish_authoritative(answer);
    (header, sections, step)
}

#[test]
fn found_soa_records_come_with_name_servers() {
    let (header, sections, step) = run(
        vec![Ok(records(vec!["soa"], Some(vec!["glue"]))), Ok(records(vec!["ns1", "ns2"], None))],
        true,
        false,
    );
    assert_eq!(step, AuthorityStep::Done);
    assert_eq!(header.response_code, NO_ERROR);
    assert!(header.authoritative);
    assert_eq!(section_names(&sections.answers), Some(vec!["soa"]));
    assert_eq!(section_names(&sections.additionals), Some(vec!["glue"]));
    assert_eq!(section_names(&sections.ns), Some(vec!["ns1", "ns2"]));
    assert_eq!(section_names(&sections.soa), None);
}

#[test]
fn failed_name_server_lookup_leaves_its_section_empty() {
    let (header, sections, step) =
        run(vec![Ok(records(vec!["soa"], None)), Err(LookupFailure::Other)], true, false);
    assert_eq!(step, AuthorityStep::Done);
    assert_eq!(header.response_code, NO_ERROR);
    assert_eq!(section_names(&sections.answers), Some(vec!["soa"]));
    assert_eq!(section_names(&sections.ns), None);
}

#[test]
fn missing_name_answers_with_the_zone_soa() {
    let (header, sections, step) =
        run(vec![Err(LookupFailure::NxDomain), Ok(records(vec!["soa"], Some(vec!["x"])))], false, false);
    assert_eq!(step, AuthorityStep::Done);
    assert_eq!(header.response_code, NX_DOMAIN);
    assert_eq!(section_names(&sections.answers), None);
    assert_eq!(section_names(&sections.additionals), None);
    assert_eq!(section_names(&sections.ns), None);
    assert_eq!(section_names(&sections.soa), Some(vec!["soa"]));
}

#[test]
fn dnssec_negative_answer_carries_nsec_and_soa() {
    let (header, sections, step) = run(
        vec![
            Err(LookupFailure::NameExists),
            Ok(records(vec!["nsec"], None)),
            Ok(records(vec!["soa"], None)),
        ],
        false,
        true,
    );
    assert_eq!(step, AuthorityStep::Done);
    assert_eq!(header.response_code, NO_ERROR);
    assert!(!header.authoritative);
    assert_eq!(section_names(&sections.ns), Some(vec!["nsec"]));
    assert_eq!(section_names(&sections.soa), Some(vec!["soa"]));
    assert_eq!(section_names(&sections.answers), None);
}

#[test]
fn refused_search_sections_are_all_empty() {
    let (header, sections, step) =
        run(vec![Err(LookupFailure::Refused), Ok(records(vec!["late"], None))], false, false);
    assert_eq!(step, AuthorityStep::Done);
    assert_eq!(header.response_code, REFUSED);
    assert_eq!(section_names(&sections.answers), None);
    assert_eq!(section_names(&sections.ns), None);
    assert_eq!(section_names(&sections.soa), None);
    assert_eq!(section_names(&sections.additionals), None);
}
