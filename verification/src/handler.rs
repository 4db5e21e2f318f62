//! The decisions the server makes while answering a request, each a step from what it
//! knows (and what the last lookup returned) to what it does next.

use vstd::prelude::*;
use vstd::string::StringSliceAdditionalSpecFns;

use crate::authority::{spec_is_authoritative, AuthorityObject, LookupObject, LookupOptions, ZoneType};
use crate::catalog::{nearest_zone, search_ends, Catalog};
use crate::dump::{
    begin_dump, closed_dump, end_dump, request_info_text, write_request_info, Dump, Walk,
};
use crate::message::{
    error_header, rcode_high, response_from_request, spec_default_header, spec_error_header,
    spec_rcode_high, spec_response_from_request, EdnsInfo, MessageHeader, MessageType, OpCode,
    BADVERS, EDNS_VERSION, FORM_ERR, MIN_PAYLOAD, NOT_AUTH, NOT_IMP, NO_ERROR, NS, NX_DOMAIN,
    REFUSED, SOA,
};
use crate::name::ZoneName;

verus! {

/// The EDNS record that answers a request's EDNS record: version 0, DNSSEC supported, and
/// the requester's payload size, raised to 512 if it is smaller.
pub open spec fn response_edns(request: EdnsInfo) -> EdnsInfo {
    EdnsInfo {
        rcode_high: 0,
        version: EDNS_VERSION,
        dnssec_ok: true,
        max_payload: if request.max_payload < MIN_PAYLOAD {
            MIN_PAYLOAD
        } else {
            request.max_payload
        },
    }
}

/// What to do with a request.
#[derive(Debug, Clone, Copy, PartialEq, Eq, Structural)]
pub enum RequestPlan {
    /// The request's EDNS version is newer than ours: answer, without records, with this
    /// header and this EDNS record.
    BadVersion { header: MessageHeader, version_edns: EdnsInfo },
    /// Look the query up, answering with this EDNS record, if any.
    Lookup { edns: Option<EdnsInfo> },
    /// Apply the update, answering with this EDNS record, if any.
    Update { edns: Option<EdnsInfo> },
    /// Answer with an error message of this header.
    Reject { header: MessageHeader },
}

/// Determines what needs to happen given the type of request, i.e. Query or Update, and
/// its EDNS record.
pub fn plan_request(header: &MessageHeader, edns: Option<EdnsInfo>) -> (r: RequestPlan)
    ensures
        match edns {
            Some(e) if e.version > EDNS_VERSION => r == RequestPlan::BadVersion {
                header: spec_error_header(*header, BADVERS),
                version_edns: EdnsInfo { rcode_high: spec_rcode_high(BADVERS), ..response_edns(e) },
            },
            _ => {
                let answer_edns = match edns {
                    Some(e) => Some(response_edns(e)),
                    None => None,
                };
                match header.message_type {
                    MessageType::Query => match header.op_code {
                        OpCode::Query => r == RequestPlan::Lookup { edns: answer_edns },
                        OpCode::Update => r == RequestPlan::Update { edns: answer_edns },
                        _ => r == RequestPlan::Reject { header: spec_error_header(*header, NOT_IMP) },
                    },
                    MessageType::Response => r == RequestPlan::Reject {
                        header: spec_error_header(*header, FORM_ERR),
                    },
                }
            },
        },
{
    let answer_edns = match edns {
        Some(e) => {
            let max_payload: u16 = if e.max_payload < MIN_PAYLOAD {
                MIN_PAYLOAD
            } else {
                e.max_payload
            };
            let answer = EdnsInfo { rcode_high: 0, version: EDNS_VERSION, dnssec_ok: true, max_payload };
            if e.version > EDNS_VERSION {
                let bad = EdnsInfo { rcode_high: rcode_high(BADVERS), ..answer };
                return RequestPlan::BadVersion { header: error_header(header, BADVERS), version_edns: bad };
            }
            Some(answer)
        },
        None => None,
    };
    match header.message_type {
        MessageType::Query => match header.op_code {
            OpCode::Query => RequestPlan::Lookup { edns: answer_edns },
            OpCode::Update => RequestPlan::Update { edns: answer_edns },
            _ => RequestPlan::Reject { header: error_header(header, NOT_IMP) },
        },
        MessageType::Response => RequestPlan::Reject { header: error_header(header, FORM_ERR) },
    }
}

/// What to do with an update request.
pub enum UpdatePlan<'a, A> {
    /// Answer with this response code.
    Respond(u16),
    /// This server holds a secondary copy of the zone: forward the update toward the
    /// zone's primary server.
    Forward(&'a A),
    /// Apply the update to this authority, a primary for the zone.
    Apply(&'a A),
}

/// What to do with a query.
pub enum LookupPlan<'a, A> {
    /// Answer from this authority.
    Answer(&'a A),
    /// No zone holds the name: answer with an error message of this header.
    Refuse(MessageHeader),
}

impl<A: AuthorityObject> Catalog<A> {
    /// Decides how to answer an update (RFC 2136, 3.1): the zone section must hold exactly
    /// one record, of type SOA, else FORMERR; the zone it names must be one of this
    /// server's authority zones, else NOTAUTH; a secondary forwards the update toward the
    /// primary, a primary applies it.
    pub fn plan_update(&self, zone_count: usize, zone_type: u16, zone: &ZoneName) -> (r: UpdatePlan<'_, A>)
        ensures
            zone_count != 1 || zone_type != SOA ==> r == UpdatePlan::<'_, A>::Respond(FORM_ERR),
            zone_count == 1 && zone_type == SOA ==> if self@.contains_key(zone@.0) {
                let a = self@[zone@.0];
                match a.zone_kind() {
                    ZoneType::Secondary | ZoneType::Slave => r matches UpdatePlan::Forward(x) && *x == a,
                    ZoneType::Primary | ZoneType::Master => r matches UpdatePlan::Apply(x) && *x == a,
                    ZoneType::Hint | ZoneType::Forward => r == UpdatePlan::<'_, A>::Respond(NOT_AUTH),
                }
            } else {
                r == UpdatePlan::<'_, A>::Respond(NOT_AUTH)
            },
    {
        if zone_count != 1 || zone_type != SOA {
            return UpdatePlan::Respond(FORM_ERR);
        }
        match self.get(zone) {
            None => UpdatePlan::Respond(NOT_AUTH),
            Some(authority) => match authority.zone_type() {
                ZoneType::Secondary | ZoneType::Slave => UpdatePlan::Forward(authority),
                ZoneType::Primary | ZoneType::Master => UpdatePlan::Apply(authority),
                ZoneType::Hint | ZoneType::Forward => UpdatePlan::Respond(NOT_AUTH),
            },
        }
    }

    /// Decides how to answer a query for `name`: from the authority of its closest
    /// enclosing zone, or with REFUSED when there is none.
    pub fn plan_lookup(&self, request: &MessageHeader, name: &ZoneName) -> (r: LookupPlan<'_, A>)
        requires
            search_ends(self@, name@),
        ensures
            match nearest_zone(self@, name@.0) {
                Some(a) => r matches LookupPlan::Answer(x) && *x == a,
                None => r == LookupPlan::<'_, A>::Refuse(spec_error_header(*request, REFUSED)),
            },
    {
        match self.find(name) {
            Some(authority) => LookupPlan::Answer(authority),
            None => LookupPlan::Refuse(error_header(request, REFUSED)),
        }
    }
}

/// The response code of an applied update: no error on success, else the code the
/// authority gave.
pub fn update_result_code(result: Result<bool, u16>) -> (r: u16)
    ensures
        r == (match result {
            Ok(_) => NO_ERROR,
            Err(code) => code,
        }),
{
    match result {
        Ok(_) => NO_ERROR,
        Err(code) => code,
    }
}

/// The header answering an update: a default header carrying the request's id, the
/// update op code, the response flag and `code`; every other field is left at its default
/// (RFC 2136, 3.8, in the form with zero counts).
pub fn update_response_header(id: u16, code: u16) -> (r: MessageHeader)
    ensures
        r.id == id && r.op_code == OpCode::Update && r.message_type == MessageType::Response,
        r.response_code == code,
        !r.authoritative && !r.truncation && !r.recursion_desired,
        !r.recursion_available && !r.authentic_data && !r.checking_disabled,
        r == (MessageHeader {
            id,
            op_code: OpCode::Update,
            message_type: MessageType::Response,
            response_code: code,
            ..spec_default_header()
        }),
{
    let mut header = MessageHeader::default();
    header.id = id;
    header.op_code = OpCode::Update;
    header.message_type = MessageType::Response;
    header.response_code = code;
    header
}

/// The options a lookup is made with, given the request's EDNS record: as the server is
/// built without DNSSEC support, they never ask for DNSSEC records.
pub fn lookup_options_for_edns(edns: Option<EdnsInfo>) -> (r: LookupOptions)
    ensures
        r == (LookupOptions { dnssec_ok: false }),
{
    LookupOptions { dnssec_ok: false }
}

/// The options a lookup is made with when the server is built with DNSSEC support: the
/// request's EDNS record decides whether DNSSEC records are wanted; without one they are not.
pub fn lookup_options_with_dnssec(edns: Option<EdnsInfo>) -> (r: LookupOptions)
    ensures
        r.dnssec_ok == match edns {
            Some(e) => e.dnssec_ok,
            None => false,
        },
{
    match edns {
        Some(e) => LookupOptions { dnssec_ok: e.dnssec_ok },
        None => LookupOptions { dnssec_ok: false },
    }
}

/// How a zone's answer is built.
#[derive(Debug, Clone, Copy, PartialEq, Eq, Structural)]
pub enum ResponseMode {
    /// From the zone's own data.
    Authoritative,
    /// From what another resolver returns.
    Forwarded,
}

/// The header a response from a zone of type `zone_type` starts from, and how the answer
/// is built: authoritative zones answer from their data, the others forward.
pub fn plan_response(zone_type: ZoneType, request: &MessageHeader) -> (r: (MessageHeader, ResponseMode))
    ensures
        r.0 == (MessageHeader {
            authoritative: spec_is_authoritative(zone_type),
            ..spec_response_from_request(*request)
        }),
        r.1 == (if spec_is_authoritative(zone_type) {
            ResponseMode::Authoritative
        } else {
            ResponseMode::Forwarded
        }),
        (zone_type == ZoneType::Hint || zone_type == ZoneType::Forward) <==> r.1
            == ResponseMode::Forwarded,
        r.0.authoritative <==> r.1 == ResponseMode::Authoritative,
        r.0.id == request.id && r.0.op_code == request.op_code,
{
    let mut header = response_from_request(request);
    header.authoritative = zone_type.is_authoritative();
    let mode = if zone_type.is_authoritative() {
        ResponseMode::Authoritative
    } else {
        ResponseMode::Forwarded
    };
    (header, mode)
}

/// Why a lookup failed.
#[derive(Debug, Clone, Copy, PartialEq, Eq, Structural)]
pub enum LookupFailure {
    /// The authority refused the request.
    Refused,
    /// The name does not exist.
    NxDomain,
    /// The name exists, without records of the type asked for.
    NameExists,
    /// Any other failure.
    Other,
}

/// The outcome of one lookup.
#[derive(Debug, Clone, Copy, PartialEq, Eq, Structural)]
pub enum LookupEvent {
    /// Records were found.
    Found,
    /// The lookup failed.
    Failed(LookupFailure),
}

/// The lookup an authoritative answer waits for next.
#[derive(Debug, Clone, Copy, PartialEq, Eq, Structural)]
pub enum AuthorityStep {
    /// The search for the query itself.
    Search,
    /// The zone's NS records, which go with the SOA record asked for.
    NameServers,
    /// The NSEC records that deny the name's existence.
    Nsec,
    /// The zone's SOA record, which goes with a negative answer.
    Soa,
    /// Nothing: the sections can be assembled.
    Done,
}

/// Where an authoritative answer stands: the next lookup, the header so far, and which
/// sections hold records (the answer, the name-server section and the SOA section).
#[derive(Debug, Clone, Copy, PartialEq, Eq, Structural)]
pub struct AuthoritativeProgress {
    pub step: AuthorityStep,
    pub header: MessageHeader,
    pub answers: bool,
    pub name_servers: bool,
    pub soa: bool,
}

/// An authoritative answer before any lookup: the search comes first, no section is filled.
pub fn start_authoritative(header: MessageHeader) -> (r: AuthoritativeProgress)
    ensures
        r == (AuthoritativeProgress {
            step: AuthorityStep::Search,
            header,
            answers: false,
            name_servers: false,
            soa: false,
        }),
{
    AuthoritativeProgress { step: AuthorityStep::Search, header, answers: false, name_servers: false, soa: false }
}

/// How an authoritative answer moves on when the lookup it waited for ends with `event`.
///
/// A successful search answers with no error, as an authority, and (for an SOA query) asks
/// for the zone's NS records; a refused search ends the answer with REFUSED and no records;
/// any other failure sets NXDOMAIN (the name does not exist) or no error (the name exists)
/// and goes on to the NSEC records (with DNSSEC) and the SOA record. The later lookups only
/// fill their sections.
pub open spec fn authoritative_next(
    progress: AuthoritativeProgress,
    event: LookupEvent,
    query_is_soa: bool,
    options: LookupOptions,
) -> AuthoritativeProgress {
    match progress.step {
        AuthorityStep::Search => match event {
            LookupEvent::Found => AuthoritativeProgress {
                step: if query_is_soa {
                    AuthorityStep::NameServers
                } else {
                    AuthorityStep::Done
                },
                header: MessageHeader { response_code: NO_ERROR, authoritative: true, ..progress.header },
                answers: true,
                ..progress
            },
            LookupEvent::Failed(LookupFailure::Refused) => AuthoritativeProgress {
                step: AuthorityStep::Done,
                header: MessageHeader { response_code: REFUSED, ..progress.header },
                ..progress
            },
            LookupEvent::Failed(failure) => AuthoritativeProgress {
                step: if options.dnssec_ok {
                    AuthorityStep::Nsec
                } else {
                    AuthorityStep::Soa
                },
                header: match failure {
                    LookupFailure::NxDomain => MessageHeader { response_code: NX_DOMAIN, ..progress.header },
                    LookupFailure::NameExists => MessageHeader { response_code: NO_ERROR, ..progress.header },
                    _ => progress.header,
                },
                ..progress
            },
        },
        AuthorityStep::NameServers => AuthoritativeProgress {
            step: AuthorityStep::Done,
            name_servers: event == LookupEvent::Found,
            ..progress
        },
        AuthorityStep::Nsec => AuthoritativeProgress {
            step: AuthorityStep::Soa,
            name_servers: event == LookupEvent::Found,
            ..progress
        },
        AuthorityStep::Soa => AuthoritativeProgress {
            step: AuthorityStep::Done,
            soa: event == LookupEvent::Found,
            ..progress
        },
        AuthorityStep::Done => progress,
    }
}

/// Moves an authoritative answer on after the lookup it waited for ended with `event`.
pub fn advance_authoritative(
    progress: AuthoritativeProgress,
    event: LookupEvent,
    query_is_soa: bool,
    options: LookupOptions,
) -> (r: AuthoritativeProgress)
    ensures
        r == authoritative_next(progress, event, query_is_soa, options),
        progress.step == AuthorityStep::Search ==> match event {
            LookupEvent::Found => r.header == (MessageHeader {
                response_code: NO_ERROR,
                authoritative: true,
                ..progress.header
            }),
            LookupEvent::Failed(LookupFailure::Refused) => r.header == (MessageHeader {
                response_code: REFUSED,
                ..progress.header
            }),
            LookupEvent::Failed(LookupFailure::NxDomain) => r.header == (MessageHeader {
                response_code: NX_DOMAIN,
                ..progress.header
            }),
            LookupEvent::Failed(LookupFailure::NameExists) => r.header == (MessageHeader {
                response_code: NO_ERROR,
                ..progress.header
            }),
            LookupEvent::Failed(LookupFailure::Other) => r.header == progress.header,
        },
{
    let found = match event {
        LookupEvent::Found => true,
        LookupEvent::Failed(_) => false,
    };
    match progress.step {
        AuthorityStep::Search => match event {
            LookupEvent::Found => {
                let mut header = progress.header;
                header.response_code = NO_ERROR;
                header.authoritative = true;
                let step = if query_is_soa {
                    AuthorityStep::NameServers
                } else {
                    AuthorityStep::Done
                };
                AuthoritativeProgress { step, header, answers: true, ..progress }
            },
            LookupEvent::Failed(LookupFailure::Refused) => {
                let mut header = progress.header;
                header.response_code = REFUSED;
                AuthoritativeProgress { step: AuthorityStep::Done, header, ..progress }
            },
            LookupEvent::Failed(failure) => {
                let mut header = progress.header;
                match failure {
                    LookupFailure::NxDomain => {
                        header.response_code = NX_DOMAIN;
                    },
                    LookupFailure::NameExists => {
                        header.response_code = NO_ERROR;
                    },
                    _ => {},
                }
                let step = if options.dnssec_ok {
                    AuthorityStep::Nsec
                } else {
                    AuthorityStep::Soa
                };
                AuthoritativeProgress { step, header, ..progress }
            },
        },
        AuthorityStep::NameServers => AuthoritativeProgress {
            step: AuthorityStep::Done,
            name_servers: found,
            ..progress
        },
        AuthorityStep::Nsec => AuthoritativeProgress {
            step: AuthorityStep::Soa,
            name_servers: found,
            ..progress
        },
        AuthorityStep::Soa => AuthoritativeProgress { step: AuthorityStep::Done, soa: found, ..progress },
        AuthorityStep::Done => progress,
    }
}

/// One section of an answer.
#[derive(Debug)]
pub enum Section<L> {
    /// The records of a lookup.
    Records(L),
    /// No records.
    Empty,
}

/// A section made of a lookup's records, if there are any.
pub open spec fn section_of<L>(records: Option<L>) -> Section<L> {
    match records {
        Some(l) => Section::Records(l),
        None => Section::Empty,
    }
}

/// The four sections of an answer.
#[derive(Debug)]
pub struct LookupSections<L> {
    pub answers: Section<L>,
    pub ns: Section<L>,
    pub soa: Section<L>,
    pub additionals: Section<L>,
}

/// The sections of an authoritative answer from the lookups that found records: the
/// answers, whose additional records (taken once) form the additional section, the
/// name-server section (NS or NSEC records) and the SOA section; a lookup that found
/// nothing leaves its section empty, and without answers there are no additional records.
pub fn assemble_sections<L: LookupObject>(answers: Option<L>, ns: Option<L>, soa: Option<L>) -> (r: LookupSections<L>)
    ensures
        match answers {
            Some(a) => r.answers is Records && r.additionals == section_of(a.pending_additionals()),
            None => r.answers is Empty && r.additionals is Empty,
        },
        r.ns == section_of(ns),
        r.soa == section_of(soa),
{
    let (answers, additionals) = match answers {
        Some(mut records) => {
            let additionals = records.take_additionals();
            let additionals = match additionals {
                Some(adds) => Section::Records(adds),
                None => Section::Empty,
            };
            (Section::Records(records), additionals)
        },
        None => (Section::Empty, Section::Empty),
    };
    let ns = match ns {
        Some(l) => Section::Records(l),
        None => Section::Empty,
    };
    let soa = match soa {
        Some(l) => Section::Records(l),
        None => Section::Empty,
    };
    LookupSections { answers, ns, soa, additionals }
}

/// What a lookup's outcome tells the answer: records were found, or why none were.
pub open spec fn event_of<L>(outcome: Result<L, LookupFailure>) -> LookupEvent {
    match outcome {
        Ok(_) => LookupEvent::Found,
        Err(failure) => LookupEvent::Failed(failure),
    }
}

/// The records a lookup's outcome holds, if it found any.
pub open spec fn found_records<L>(outcome: Result<L, LookupFailure>) -> Option<L> {
    match outcome {
        Ok(l) => Some(l),
        Err(_) => None,
    }
}

/// An authoritative answer on its way: where it stands, and the records found so far for
/// the answer section, the name-server section (NS or NSEC records) and the SOA section.
#[derive(Debug)]
pub struct AuthoritativeAnswer<L> {
    pub progress: AuthoritativeProgress,
    pub answers: Option<L>,
    pub ns: Option<L>,
    pub soa: Option<L>,
}

impl<L> AuthoritativeAnswer<L> {
    /// Each section holds records exactly when the progress says a lookup found them.
    pub open spec fn holds_what_was_found(&self) -> bool {
        &&& (self.answers is Some) == self.progress.answers
        &&& (self.ns is Some) == self.progress.name_servers
        &&& (self.soa is Some) == self.progress.soa
    }
}

/// An authoritative answer before any lookup: the search comes first, no records yet.
pub fn start_authoritative_answer<L>(header: MessageHeader) -> (r: AuthoritativeAnswer<L>)
    ensures
        r.progress == (AuthoritativeProgress {
            step: AuthorityStep::Search,
            header,
            answers: false,
            name_servers: false,
            soa: false,
        }),
        r.answers is None,
        r.ns is None,
        r.soa is None,
        r.holds_what_was_found(),
{
    AuthoritativeAnswer { progress: start_authoritative(header), answers: None, ns: None, soa: None }
}

/// Takes in the outcome of the lookup the answer waited for: the progress moves on as
/// `authoritative_next` says, and the records found go to the section of that step (the
/// search fills the answers; the NS or NSEC lookup the name-server section, which it
/// leaves empty when it fails; the SOA lookup the SOA section, likewise). Records that come
/// once the answer is done are dropped.
pub fn record_lookup<L>(
    answer: AuthoritativeAnswer<L>,
    outcome: Result<L, LookupFailure>,
    query_is_soa: bool,
    options: LookupOptions,
) -> (r: AuthoritativeAnswer<L>)
    ensures
        r.progress == authoritative_next(answer.progress, event_of(outcome), query_is_soa, options),
        r.answers == (if answer.progress.step == AuthorityStep::Search && outcome is Ok {
            found_records(outcome)
        } else {
            answer.answers
        }),
        r.ns == (if answer.progress.step == AuthorityStep::NameServers || answer.progress.step
            == AuthorityStep::Nsec {
            found_records(outcome)
        } else {
            answer.ns
        }),
        r.soa == (if answer.progress.step == AuthorityStep::Soa {
            found_records(outcome)
        } else {
            answer.soa
        }),
        answer.holds_what_was_found() ==> r.holds_what_was_found(),
{
    let event = match &outcome {
        Ok(_) => LookupEvent::Found,
        Err(failure) => LookupEvent::Failed(*failure),
    };
    let step = answer.progress.step;
    let progress = advance_authoritative(answer.progress, event, query_is_soa, options);
    let AuthoritativeAnswer { answers, ns, soa, .. } = answer;
    let found = match outcome {
        Ok(l) => Some(l),
        Err(_) => None,
    };
    match step {
        AuthorityStep::Search => {
            let answers = match found {
                Some(l) => Some(l),
                None => answers,
            };
            AuthoritativeAnswer { progress, answers, ns, soa }
        },
        AuthorityStep::NameServers | AuthorityStep::Nsec => AuthoritativeAnswer {
            progress,
            answers,
            ns: found,
            soa,
        },
        AuthorityStep::Soa => AuthoritativeAnswer { progress, answers, ns, soa: found },
        AuthorityStep::Done => AuthoritativeAnswer { progress, answers, ns, soa },
    }
}

/// Ends an authoritative answer: the header it reached, and the sections made of the
/// records it found (as `assemble_sections` makes them).
pub fn finish_authoritative<L: LookupObject>(answer: AuthoritativeAnswer<L>) -> (r: (
    MessageHeader,
    LookupSections<L>,
))
    ensures
        r.0 == answer.progress.header,
        match answer.answers {
            Some(a) => r.1.answers is Records && r.1.additionals == section_of(a.pending_additionals()),
            None => r.1.answers is Empty && r.1.additionals is Empty,
        },
        r.1.ns == section_of(answer.ns),
        r.1.soa == section_of(answer.soa),
{
    let header = answer.progress.header;
    let AuthoritativeAnswer { answers, ns, soa, .. } = answer;
    (header, assemble_sections(answers, ns, soa))
}

/// The sections of a forwarded answer: the records the other resolver returned, if any,
/// as answers; every other section empty.
pub fn forwarded_sections<L: LookupObject>(answers: Option<L>) -> (r: LookupSections<L>)
    ensures
        r.answers == section_of(answers),
        r.ns is Empty && r.soa is Empty && r.additionals is Empty,
{
    let answers = match answers {
        Some(l) => Section::Records(l),
        None => Section::Empty,
    };
    LookupSections { answers, ns: Section::Empty, soa: Section::Empty, additionals: Section::Empty }
}

/// A lookup an authority is asked for.
#[derive(Debug, Clone, Copy)]
pub enum ZoneLookup<'a> {
    /// The search for the query itself, with the request's lookup options.
    Query { options: LookupOptions },
    /// The records of type `record_type` at `name`.
    Records { name: &'a ZoneName, record_type: u16, options: LookupOptions },
    /// The NSEC records that cover `name`.
    Nsec { name: &'a ZoneName, options: LookupOptions },
}

/// The lookup each step of an authoritative answer makes: the search, the NS records
/// at the zone's origin, the NSEC records covering the queried name, or the SOA record at
/// the origin, all with the request's lookup options; nothing once the answer is done.
pub fn lookup_for_step<'a>(
    step: AuthorityStep,
    query_name: &'a ZoneName,
    origin: &'a ZoneName,
    options: LookupOptions,
) -> (r: Option<ZoneLookup<'a>>)
    ensures
        match step {
            AuthorityStep::Search => r == Some(ZoneLookup::Query { options }),
            AuthorityStep::NameServers => r == Some(ZoneLookup::Records { name: origin, record_type: NS, options }),
            AuthorityStep::Nsec => r == Some(ZoneLookup::Nsec { name: query_name, options }),
            AuthorityStep::Soa => r == Some(ZoneLookup::Records { name: origin, record_type: SOA, options }),
            AuthorityStep::Done => r is None,
        },
{
    match step {
        AuthorityStep::Search => Some(ZoneLookup::Query { options }),
        AuthorityStep::NameServers => Some(ZoneLookup::Records { name: origin, record_type: NS, options }),
        AuthorityStep::Nsec => Some(ZoneLookup::Nsec { name: query_name, options }),
        AuthorityStep::Soa => Some(ZoneLookup::Records { name: origin, record_type: SOA, options }),
        AuthorityStep::Done => None,
    }
}

/// The lookup of a zone's SOA record alone, without DNSSEC records.
pub fn soa_lookup<'a>(origin: &'a ZoneName) -> (r: ZoneLookup<'a>)
    ensures
        r == (ZoneLookup::Records { name: origin, record_type: SOA, options: LookupOptions { dnssec_ok: false } }),
{
    ZoneLookup::Records { name: origin, record_type: SOA, options: LookupOptions { dnssec_ok: false } }
}

/// The number of lookups an authoritative answer may still wait for.
pub open spec fn steps_left(step: AuthorityStep) -> nat {
    match step {
        AuthorityStep::Search => 3,
        AuthorityStep::Nsec => 2,
        AuthorityStep::NameServers => 1,
        AuthorityStep::Soa => 1,
        AuthorityStep::Done => 0,
    }
}

/// Starts a forwarded answer: recursion is available, the answer is not authoritative;
/// the lookup is made only when the request asks for recursion.
pub fn start_forwarded(header: MessageHeader, request: &MessageHeader) -> (r: (MessageHeader, bool))
    ensures
        r.0 == (MessageHeader { recursion_available: true, authoritative: false, ..header }),
        r.1 == request.recursion_desired,
{
    let mut header = header;
    header.recursion_available = true;
    header.authoritative = false;
    (header, request.recursion_desired)
}

/// Ends a forwarded answer with the lookup's outcome: the records found form the answer;
/// a name that does not exist sets NXDOMAIN; any other failure leaves the header as it is.
pub fn finish_forwarded(header: MessageHeader, event: LookupEvent) -> (r: (MessageHeader, bool))
    ensures
        r.1 == (event == LookupEvent::Found),
        r.0 == (if event == LookupEvent::Failed(LookupFailure::NxDomain) {
            MessageHeader { response_code: NX_DOMAIN, ..header }
        } else {
            header
        }),
{
    match event {
        LookupEvent::Found => (header, true),
        LookupEvent::Failed(failure) => {
            let mut header = header;
            if let LookupFailure::NxDomain = failure {
                header.response_code = NX_DOMAIN;
            }
            (header, false)
        },
    }
}

/// The dump of what a lookup works on, closed as a JSON object: the entry locating the
/// request's header and query (`header`, `query`) and the request (`base`), then the
/// authority's dump and walk, the request's dump and walk, and the dump and walk of the
/// request's parts (`info`), in that order.
pub fn dump_context<A: AuthorityObject, R: Dump + Walk, I: Dump + Walk>(
    header: &str,
    query: &str,
    base: &str,
    authority: &A,
    request: &R,
    info: &I,
) -> (r: Vec<u8>)
    ensures
        exists|ad: Seq<u8>, aw: Seq<u8>, rd: Seq<u8>, rw: Seq<u8>, id: Seq<u8>, iw: Seq<u8>|
            #![trigger authority.authority_dump_appends(ad), authority.walk_appends(aw), request.dump_appends(rd), request.walk_appends(rw), info.dump_appends(id), info.walk_appends(iw)]
            {
                &&& authority.authority_dump_appends(ad)
                &&& authority.walk_appends(aw)
                &&& request.dump_appends(rd)
                &&& request.walk_appends(rw)
                &&& info.dump_appends(id)
                &&& info.walk_appends(iw)
                &&& r@ == closed_dump(
                    "{".spec_bytes() + request_info_text(header.spec_bytes(), query.spec_bytes(), base.spec_bytes())
                        + ad + aw + rd + rw + id + iw,
                )
            },
{
    let mut f = begin_dump();
    write_request_info(&mut f, header, query, base);
    let ghost s0 = f@;
    AuthorityObject::dump(authority, &mut f);
    let ghost s1 = f@;
    authority.walk(&mut f);
    let ghost s2 = f@;
    request.dump(&mut f);
    let ghost s3 = f@;
    request.walk(&mut f);
    let ghost s4 = f@;
    info.dump(&mut f);
    let ghost s5 = f@;
    info.walk(&mut f);
    let ghost s6 = f@;
    proof {
        let ad = choose|out: Seq<u8>| authority.authority_dump_appends(out) && s1 == s0 + out;
        let aw = choose|out: Seq<u8>| authority.walk_appends(out) && s2 == s1 + out;
        let rd = choose|out: Seq<u8>| request.dump_appends(out) && s3 == s2 + out;
        let rw = choose|out: Seq<u8>| request.walk_appends(out) && s4 == s3 + out;
        let id = choose|out: Seq<u8>| info.dump_appends(out) && s5 == s4 + out;
        let iw = choose|out: Seq<u8>| info.walk_appends(out) && s6 == s5 + out;
        assert(authority.authority_dump_appends(ad));
        assert(authority.walk_appends(aw));
        assert(request.dump_appends(rd));
        assert(request.walk_appends(rw));
        assert(info.dump_appends(id));
        assert(info.walk_appends(iw));
        assert(s6 =~= s0 + ad + aw + rd + rw + id + iw);
    }
    end_dump(&mut f);
    f
}

/// The payload size answered is the requester's, raised to 512 when it is smaller.
pub proof fn law_answer_payload_is_at_least_512(request: EdnsInfo)
    ensures
        response_edns(request).max_payload >= MIN_PAYLOAD,
        response_edns(request).max_payload >= request.max_payload,
        request.max_payload >= MIN_PAYLOAD ==> response_edns(request).max_payload == request.max_payload,
{
}

/// Every lookup brings an authoritative answer closer to its end: it waits for at most
/// three lookups (the search, the NSEC records, the SOA record).
pub proof fn law_authoritative_answer_ends(
    progress: AuthoritativeProgress,
    event: LookupEvent,
    query_is_soa: bool,
    options: LookupOptions,
)
    requires
        progress.step != AuthorityStep::Done,
    ensures
        steps_left(authoritative_next(progress, event, query_is_soa, options).step) < steps_left(progress.step),
{
}

/// Once the search is over, the response code, the authoritative flag and the answer
/// section no longer change.
pub proof fn law_search_settles_the_header(
    progress: AuthoritativeProgress,
    event: LookupEvent,
    query_is_soa: bool,
    options: LookupOptions,
)
    requires
        progress.step != AuthorityStep::Search,
    ensures
        authoritative_next(progress, event, query_is_soa, options).header == progress.header,
        authoritative_next(progress, event, query_is_soa, options).answers == progress.answers,
{
}

/// How the search's outcome sets the header, whatever the lookup options and the query
/// type: records found give no error and the authoritative bit; a refusal gives REFUSED; a
/// name that does not exist gives NXDOMAIN (with DNSSEC too); a name that exists without
/// such records gives no error; any other failure leaves the header as it was.
pub proof fn law_search_outcome_sets_the_response_code(
    progress: AuthoritativeProgress,
    event: LookupEvent,
    query_is_soa: bool,
    options: LookupOptions,
)
    requires
        progress.step == AuthorityStep::Search,
    ensures
        ({
            let h = authoritative_next(progress, event, query_is_soa, options).header;
            match event {
                LookupEvent::Found => h.response_code == NO_ERROR && h.authoritative,
                LookupEvent::Failed(LookupFailure::Refused) => h.response_code == REFUSED,
                LookupEvent::Failed(LookupFailure::NxDomain) => h.response_code == NX_DOMAIN,
                LookupEvent::Failed(LookupFailure::NameExists) => h.response_code == NO_ERROR,
                LookupEvent::Failed(LookupFailure::Other) => h == progress.header,
            }
        }),
        ({
            let h = authoritative_next(progress, event, query_is_soa, options).header;
            &&& h.id == progress.header.id
            &&& h.op_code == progress.header.op_code
            &&& (event is Failed ==> h.authoritative == progress.header.authoritative)
        }),
{
}

/// A refused search ends the answer at once, with REFUSED and no records in any section.
pub proof fn law_refused_search_answers_nothing(header: MessageHeader, query_is_soa: bool, options: LookupOptions)
    ensures
        ({
            let start = AuthoritativeProgress {
                step: AuthorityStep::Search,
                header,
                answers: false,
                name_servers: false,
                soa: false,
            };
            let next = authoritative_next(start, LookupEvent::Failed(LookupFailure::Refused), query_is_soa, options);
            &&& next.step == AuthorityStep::Done
            &&& next.header.response_code == REFUSED
            &&& !next.answers && !next.name_servers && !next.soa
        }),
{
}

/// A search that finds records answers with no error, as the zone's authority.
pub proof fn law_found_search_is_authoritative(
    progress: AuthoritativeProgress,
    query_is_soa: bool,
    options: LookupOptions,
)
    requires
        progress.step == AuthorityStep::Search,
    ensures
        authoritative_next(progress, LookupEvent::Found, query_is_soa, options).header.response_code == NO_ERROR,
        authoritative_next(progress, LookupEvent::Found, query_is_soa, options).header.authoritative,
        authoritative_next(progress, LookupEvent::Found, query_is_soa, options).answers,
{
}

/// A search that fails for any reason but a refusal leads to the lookup of the zone's SOA
/// record, at once or right after the NSEC records.
pub proof fn law_negative_answer_asks_for_soa(
    progress: AuthoritativeProgress,
    failure: LookupFailure,
    second: LookupEvent,
    query_is_soa: bool,
    options: LookupOptions,
)
    requires
        progress.step == AuthorityStep::Search,
        failure != LookupFailure::Refused,
    ensures
        ({
            let next = authoritative_next(progress, LookupEvent::Failed(failure), query_is_soa, options);
            if options.dnssec_ok {
                next.step == AuthorityStep::Nsec && authoritative_next(next, second, query_is_soa, options).step
                    == AuthorityStep::Soa
            } else {
                next.step == AuthorityStep::Soa
            }
        }),
{
}

} // verus!
