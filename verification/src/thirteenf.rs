//! The Form 13F decoder: the primary document (header, cover page,
//! signature, summary) and the separate per-security information table.
//!
//! The whole family is strict where the published schema is: a missing
//! required tag, or a required numeric or boolean leaf that does not parse,
//! fails the whole document — or the whole information table — with one
//! descriptive error naming the tag, in document order.

use vstd::prelude::*;
use crate::error::{missing_element, prepend_items, result_matches, ParseError, ParseErrorView};
use crate::reader::{parse_tree, xml_parse};
use crate::xml::{child_of, child_text, find_child, get_bool, get_int32, get_int64, get_string,
    get_ints, ints_of_children, opt_bool, opt_bool_of, opt_i32, opt_i32_of, opt_string, req_bool_of,
    req_i32_of, req_i64_of, req_text_of, str_eq, XmlNode};

verus! {

#[derive(Debug, Clone, PartialEq)]
pub struct Credentials {
    pub cik: String,
    pub ccc: String,
}

#[derive(Debug, Clone, PartialEq)]
pub struct Filer {
    pub credentials: Credentials,
    pub file_number: Option<String>,
}

#[derive(Debug, Clone, PartialEq)]
pub struct Flags {
    pub confirming_copy_flag: Option<bool>,
    pub return_copy_flag: Option<bool>,
    pub override_internet_flag: Option<bool>,
}

#[derive(Debug, Clone, PartialEq)]
pub struct Contact {
    pub name: Option<String>,
    pub phone_number: Option<String>,
    pub email_address: Option<String>,
}

#[derive(Debug, Clone, PartialEq)]
pub struct Notifications {
    pub email_address: Option<String>,
}

#[derive(Debug, Clone, PartialEq)]
pub struct FilerInfo {
    pub live_test_flag: String,
    pub flags: Option<Flags>,
    pub filer: Filer,
    pub contact: Option<Contact>,
    pub notifications: Option<Notifications>,
    pub period_of_report: String,
}

#[derive(Debug, Clone, PartialEq)]
pub struct HeaderData {
    pub submission_type: String,
    pub filer_info: FilerInfo,
}

#[derive(Debug, Clone, PartialEq)]
pub struct AmendmentInfo {
    pub amendment_type: Option<String>,
    pub conf_denied_expired: Option<bool>,
    pub data_denied_expired: Option<String>,
    pub date_reported: Option<String>,
    pub reason_for_non_confidentiality: Option<String>,
}

#[derive(Debug, Clone, PartialEq)]
pub struct Address {
    pub street1: String,
    pub street2: Option<String>,
    pub city: String,
    pub state_or_country: String,
    pub zip_code: String,
}

#[derive(Debug, Clone, PartialEq)]
pub struct FilingManager {
    pub name: String,
    pub address: Address,
}

#[derive(Debug, Clone, PartialEq)]
pub struct OtherManager {
    pub cik: Option<String>,
    pub name: Option<String>,
    pub form_13f_file_number: Option<String>,
}

#[derive(Debug, Clone, PartialEq)]
pub struct OtherManagerInfo {
    pub other_manager: Option<OtherManager>,
}

#[derive(Debug, Clone, PartialEq)]
pub struct CoverPage {
    pub report_calendar_or_quarter: String,
    pub is_amendment: Option<bool>,
    pub amendment_number: Option<i32>,
    pub amendment_info: Option<AmendmentInfo>,
    pub filing_manager: FilingManager,
    pub report_type: String,
    pub form_13f_file_number: Option<String>,
    pub other_manager_info: Option<OtherManagerInfo>,
    pub provide_info_for_instruction_5: bool,
    pub additional_information: Option<String>,
}

#[derive(Debug, Clone, PartialEq)]
pub struct SignatureBlock {
    pub name: String,
    pub title: String,
    pub phone: String,
    pub signature: String,
    pub city: String,
    pub state_or_country: String,
    pub signature_date: String,
}

#[derive(Debug, Clone, PartialEq)]
pub struct OtherManagerWithSequence {
    pub sequence_number: Option<i32>,
    pub manager: Option<OtherManager>,
}

#[derive(Debug, Clone, PartialEq)]
pub struct SummaryPage {
    pub other_included_managers_count: i32,
    pub table_entry_total: i32,
    pub table_value_total: i64,
    pub is_confidential_omitted: Option<bool>,
    pub other_managers: Vec<OtherManagerWithSequence>,
}

#[derive(Debug, Clone, PartialEq)]
pub struct OtherDocument {
    pub conformed_name: Option<String>,
    pub conformed_document_type: Option<String>,
    pub description: Option<String>,
    pub contents: Option<String>,
}

#[derive(Debug, Clone, PartialEq)]
pub struct FormData {
    pub cover_page: CoverPage,
    pub signature_block: SignatureBlock,
    pub summary_page: Option<SummaryPage>,
    pub documents: Vec<OtherDocument>,
}

/// A 13F primary document.
#[derive(Debug, Clone, PartialEq)]
pub struct Document {
    pub schema_version: Option<String>,
    pub header_data: HeaderData,
    pub form_data: FormData,
}

#[derive(Debug, Clone, PartialEq)]
pub struct SharesOrPrintAmount {
    pub amount: i64,
    pub shares_or_print_type: String,
}

#[derive(Debug, Clone, PartialEq)]
pub struct VotingAuthority {
    pub sole: i32,
    pub shared: i32,
    pub none: i32,
}

#[derive(Debug, Clone, PartialEq)]
pub struct TableEntry {
    pub name_of_issuer: String,
    pub title_of_class: String,
    pub cusip: String,
    pub figi: Option<String>,
    pub value: i64,
    pub shares_or_print_amount: SharesOrPrintAmount,
    pub put_call: Option<String>,
    pub investment_discretion: String,
    pub other_manager: Vec<i32>,
    pub voting_authority: VotingAuthority,
}

/// A 13F information table.
#[derive(Debug, Clone, PartialEq)]
pub struct Table {
    pub entries: Vec<TableEntry>,
}

pub struct CredentialsView {
    pub cik: Seq<char>,
    pub ccc: Seq<char>,
}

pub struct FilerView {
    pub credentials: CredentialsView,
    pub file_number: Option<Seq<char>>,
}

pub struct FlagsView {
    pub confirming_copy_flag: Option<bool>,
    pub return_copy_flag: Option<bool>,
    pub override_internet_flag: Option<bool>,
}

pub struct ContactView {
    pub name: Option<Seq<char>>,
    pub phone_number: Option<Seq<char>>,
    pub email_address: Option<Seq<char>>,
}

pub struct NotificationsView {
    pub email_address: Option<Seq<char>>,
}

pub struct FilerInfoView {
    pub live_test_flag: Seq<char>,
    pub flags: Option<FlagsView>,
    pub filer: FilerView,
    pub contact: Option<ContactView>,
    pub notifications: Option<NotificationsView>,
    pub period_of_report: Seq<char>,
}

pub struct HeaderDataView {
    pub submission_type: Seq<char>,
    pub filer_info: FilerInfoView,
}

pub struct AmendmentInfoView {
    pub amendment_type: Option<Seq<char>>,
    pub conf_denied_expired: Option<bool>,
    pub data_denied_expired: Option<Seq<char>>,
    pub date_reported: Option<Seq<char>>,
    pub reason_for_non_confidentiality: Option<Seq<char>>,
}

pub struct AddressView {
    pub street1: Seq<char>,
    pub street2: Option<Seq<char>>,
    pub city: Seq<char>,
    pub state_or_country: Seq<char>,
    pub zip_code: Seq<char>,
}

pub struct FilingManagerView {
    pub name: Seq<char>,
    pub address: AddressView,
}

pub struct OtherManagerView {
    pub cik: Option<Seq<char>>,
    pub name: Option<Seq<char>>,
    pub form_13f_file_number: Option<Seq<char>>,
}

pub struct OtherManagerInfoView {
    pub other_manager: Option<OtherManagerView>,
}

pub struct CoverPageView {
    pub report_calendar_or_quarter: Seq<char>,
    pub is_amendment: Option<bool>,
    pub amendment_number: Option<i32>,
    pub amendment_info: Option<AmendmentInfoView>,
    pub filing_manager: FilingManagerView,
    pub report_type: Seq<char>,
    pub form_13f_file_number: Option<Seq<char>>,
    pub other_manager_info: Option<OtherManagerInfoView>,
    pub provide_info_for_instruction_5: bool,
    pub additional_information: Option<Seq<char>>,
}

pub struct SignatureBlockView {
    pub name: Seq<char>,
    pub title: Seq<char>,
    pub phone: Seq<char>,
    pub signature: Seq<char>,
    pub city: Seq<char>,
    pub state_or_country: Seq<char>,
    pub signature_date: Seq<char>,
}

pub struct OtherManagerWithSequenceView {
    pub sequence_number: Option<i32>,
    pub manager: Option<OtherManagerView>,
}

pub struct SummaryPageView {
    pub other_included_managers_count: i32,
    pub table_entry_total: i32,
    pub table_value_total: i64,
    pub is_confidential_omitted: Option<bool>,
    pub other_managers: Seq<OtherManagerWithSequenceView>,
}

pub struct OtherDocumentView {
    pub conformed_name: Option<Seq<char>>,
    pub conformed_document_type: Option<Seq<char>>,
    pub description: Option<Seq<char>>,
    pub contents: Option<Seq<char>>,
}

pub struct FormDataView {
    pub cover_page: CoverPageView,
    pub signature_block: SignatureBlockView,
    pub summary_page: Option<SummaryPageView>,
    pub documents: Seq<OtherDocumentView>,
}

pub struct DocumentView {
    pub schema_version: Option<Seq<char>>,
    pub header_data: HeaderDataView,
    pub form_data: FormDataView,
}

pub struct SharesOrPrintAmountView {
    pub amount: i64,
    pub shares_or_print_type: Seq<char>,
}

pub struct VotingAuthorityView {
    pub sole: i32,
    pub shared: i32,
    pub none: i32,
}

pub struct TableEntryView {
    pub name_of_issuer: Seq<char>,
    pub title_of_class: Seq<char>,
    pub cusip: Seq<char>,
    pub figi: Option<Seq<char>>,
    pub value: i64,
    pub shares_or_print_amount: SharesOrPrintAmountView,
    pub put_call: Option<Seq<char>>,
    pub investment_discretion: Seq<char>,
    pub other_manager: Seq<i32>,
    pub voting_authority: VotingAuthorityView,
}

pub struct TableView {
    pub entries: Seq<TableEntryView>,
}

impl DeepView for Credentials {
    type V = CredentialsView;

    open spec fn deep_view(&self) -> CredentialsView {
        CredentialsView { cik: self.cik@, ccc: self.ccc@ }
    }
}

impl DeepView for Filer {
    type V = FilerView;

    open spec fn deep_view(&self) -> FilerView {
        FilerView {
            credentials: self.credentials.deep_view(),
            file_number: self.file_number.deep_view(),
        }
    }
}

impl DeepView for Flags {
    type V = FlagsView;

    open spec fn deep_view(&self) -> FlagsView {
        FlagsView {
            confirming_copy_flag: self.confirming_copy_flag.deep_view(),
            return_copy_flag: self.return_copy_flag.deep_view(),
            override_internet_flag: self.override_internet_flag.deep_view(),
        }
    }
}

impl DeepView for Contact {
    type V = ContactView;

    open spec fn deep_view(&self) -> ContactView {
        ContactView {
            name: self.name.deep_view(),
            phone_number: self.phone_number.deep_view(),
            email_address: self.email_address.deep_view(),
        }
    }
}

impl DeepView for Notifications {
    type V = NotificationsView;

    open spec fn deep_view(&self) -> NotificationsView {
        NotificationsView { email_address: self.email_address.deep_view() }
    }
}

impl DeepView for FilerInfo {
    type V = FilerInfoView;

    open spec fn deep_view(&self) -> FilerInfoView {
        FilerInfoView {
            live_test_flag: self.live_test_flag@,
            flags: self.flags.deep_view(),
            filer: self.filer.deep_view(),
            contact: self.contact.deep_view(),
            notifications: self.notifications.deep_view(),
            period_of_report: self.period_of_report@,
        }
    }
}

impl DeepView for HeaderData {
    type V = HeaderDataView;

    open spec fn deep_view(&self) -> HeaderDataView {
        HeaderDataView {
            submission_type: self.submission_type@,
            filer_info: self.filer_info.deep_view(),
        }
    }
}

impl DeepView for AmendmentInfo {
    type V = AmendmentInfoView;

    open spec fn deep_view(&self) -> AmendmentInfoView {
        AmendmentInfoView {
            amendment_type: self.amendment_type.deep_view(),
            conf_denied_expired: self.conf_denied_expired.deep_view(),
            data_denied_expired: self.data_denied_expired.deep_view(),
            date_reported: self.date_reported.deep_view(),
            reason_for_non_confidentiality: self.reason_for_non_confidentiality.deep_view(),
        }
    }
}

impl DeepView for Address {
    type V = AddressView;

    open spec fn deep_view(&self) -> AddressView {
        AddressView {
            street1: self.street1@,
            street2: self.street2.deep_view(),
            city: self.city@,
            state_or_country: self.state_or_country@,
            zip_code: self.zip_code@,
        }
    }
}

impl DeepView for FilingManager {
    type V = FilingManagerView;

    open spec fn deep_view(&self) -> FilingManagerView {
        FilingManagerView { name: self.name@, address: self.address.deep_view() }
    }
}

impl DeepView for OtherManager {
    type V = OtherManagerView;

    open spec fn deep_view(&self) -> OtherManagerView {
        OtherManagerView {
            cik: self.cik.deep_view(),
            name: self.name.deep_view(),
            form_13f_file_number: self.form_13f_file_number.deep_view(),
        }
    }
}

impl DeepView for OtherManagerInfo {
    type V = OtherManagerInfoView;

    open spec fn deep_view(&self) -> OtherManagerInfoView {
        OtherManagerInfoView { other_manager: self.other_manager.deep_view() }
    }
}

impl DeepView for CoverPage {
    type V = CoverPageView;

    open spec fn deep_view(&self) -> CoverPageView {
        CoverPageView {
            report_calendar_or_quarter: self.report_calendar_or_quarter@,
            is_amendment: self.is_amendment.deep_view(),
            amendment_number: self.amendment_number.deep_view(),
            amendment_info: self.amendment_info.deep_view(),
            filing_manager: self.filing_manager.deep_view(),
            report_type: self.report_type@,
            form_13f_file_number: self.form_13f_file_number.deep_view(),
            other_manager_info: self.other_manager_info.deep_view(),
            provide_info_for_instruction_5: self.provide_info_for_instruction_5,
            additional_information: self.additional_information.deep_view(),
        }
    }
}

impl DeepView for SignatureBlock {
    type V = SignatureBlockView;

    open spec fn deep_view(&self) -> SignatureBlockView {
        SignatureBlockView {
            name: self.name@,
            title: self.title@,
            phone: self.phone@,
            signature: self.signature@,
            city: self.city@,
            state_or_country: self.state_or_country@,
            signature_date: self.signature_date@,
        }
    }
}

impl DeepView for OtherManagerWithSequence {
    type V = OtherManagerWithSequenceView;

    open spec fn deep_view(&self) -> OtherManagerWithSequenceView {
        OtherManagerWithSequenceView {
            sequence_number: self.sequence_number.deep_view(),
            manager: self.manager.deep_view(),
        }
    }
}

impl DeepView for SummaryPage {
    type V = SummaryPageView;

    open spec fn deep_view(&self) -> SummaryPageView {
        SummaryPageView {
            other_included_managers_count: self.other_included_managers_count,
            table_entry_total: self.table_entry_total,
            table_value_total: self.table_value_total,
            is_confidential_omitted: self.is_confidential_omitted.deep_view(),
            other_managers: self.other_managers.deep_view(),
        }
    }
}

impl DeepView for OtherDocument {
    type V = OtherDocumentView;

    open spec fn deep_view(&self) -> OtherDocumentView {
        OtherDocumentView {
            conformed_name: self.conformed_name.deep_view(),
            conformed_document_type: self.conformed_document_type.deep_view(),
            description: self.description.deep_view(),
            contents: self.contents.deep_view(),
        }
    }
}

impl DeepView for FormData {
    type V = FormDataView;

    open spec fn deep_view(&self) -> FormDataView {
        FormDataView {
            cover_page: self.cover_page.deep_view(),
            signature_block: self.signature_block.deep_view(),
            summary_page: self.summary_page.deep_view(),
            documents: self.documents.deep_view(),
        }
    }
}

impl DeepView for Document {
    type V = DocumentView;

    open spec fn deep_view(&self) -> DocumentView {
        DocumentView {
            schema_version: self.schema_version.deep_view(),
            header_data: self.header_data.deep_view(),
            form_data: self.form_data.deep_view(),
        }
    }
}

impl DeepView for SharesOrPrintAmount {
    type V = SharesOrPrintAmountView;

    open spec fn deep_view(&self) -> SharesOrPrintAmountView {
        SharesOrPrintAmountView {
            amount: self.amount,
            shares_or_print_type: self.shares_or_print_type@,
        }
    }
}

impl DeepView for VotingAuthority {
    type V = VotingAuthorityView;

    open spec fn deep_view(&self) -> VotingAuthorityView {
        VotingAuthorityView { sole: self.sole, shared: self.shared, none: self.none }
    }
}

impl DeepView for TableEntry {
    type V = TableEntryView;

    open spec fn deep_view(&self) -> TableEntryView {
        TableEntryView {
            name_of_issuer: self.name_of_issuer@,
            title_of_class: self.title_of_class@,
            cusip: self.cusip@,
            figi: self.figi.deep_view(),
            value: self.value,
            shares_or_print_amount: self.shares_or_print_amount.deep_view(),
            put_call: self.put_call.deep_view(),
            investment_discretion: self.investment_discretion@,
            other_manager: self.other_manager.deep_view(),
            voting_authority: self.voting_authority.deep_view(),
        }
    }
}

impl DeepView for Table {
    type V = TableView;

    open spec fn deep_view(&self) -> TableView {
        TableView { entries: self.entries.deep_view() }
    }
}

pub open spec fn spec_flags(n: XmlNode) -> Option<FlagsView> {
    match child_of(n, "flags"@) {
        Some(c) => Some(
            FlagsView {
                confirming_copy_flag: opt_bool_of(c, "confirmingCopyFlag"@),
                return_copy_flag: opt_bool_of(c, "returnCopyFlag"@),
                override_internet_flag: opt_bool_of(c, "overrideInternetFlag"@),
            },
        ),
        None => None,
    }
}

fn parse_flags(node: &XmlNode) -> (r: Option<Flags>)
    ensures
        r.deep_view() == spec_flags(*node),
{
    match find_child(node, "flags") {
        Some(c) => Some(
            Flags {
                confirming_copy_flag: opt_bool(c, "confirmingCopyFlag"),
                return_copy_flag: opt_bool(c, "returnCopyFlag"),
                override_internet_flag: opt_bool(c, "overrideInternetFlag"),
            },
        ),
        None => None,
    }
}

pub open spec fn spec_contact(n: XmlNode) -> Option<ContactView> {
    match child_of(n, "contact"@) {
        Some(c) => Some(
            ContactView {
                name: child_text(c, "name"@),
                phone_number: child_text(c, "phoneNumber"@),
                email_address: child_text(c, "emailAddress"@),
            },
        ),
        None => None,
    }
}

fn parse_contact(node: &XmlNode) -> (r: Option<Contact>)
    ensures
        r.deep_view() == spec_contact(*node),
{
    match find_child(node, "contact") {
        Some(c) => Some(
            Contact {
                name: opt_string(c, "name"),
                phone_number: opt_string(c, "phoneNumber"),
                email_address: opt_string(c, "emailAddress"),
            },
        ),
        None => None,
    }
}

pub open spec fn spec_notifications(n: XmlNode) -> Option<NotificationsView> {
    match child_of(n, "notifications"@) {
        Some(c) => Some(NotificationsView { email_address: child_text(c, "emailAddress"@) }),
        None => None,
    }
}

fn parse_notifications(node: &XmlNode) -> (r: Option<Notifications>)
    ensures
        r.deep_view() == spec_notifications(*node),
{
    match find_child(node, "notifications") {
        Some(c) => Some(Notifications { email_address: opt_string(c, "emailAddress") }),
        None => None,
    }
}

/// The `credentials` block: the block, its `cik` and its `ccc` are required.
pub open spec fn spec_credentials(n: XmlNode) -> Result<CredentialsView, ParseErrorView> {
    match child_of(n, "credentials"@) {
        None => Err(ParseErrorView::MissingRequiredElement("credentials"@)),
        Some(c) => if req_text_of(c, "cik"@) is Err {
            Err(req_text_of(c, "cik"@)->Err_0)
        } else if req_text_of(c, "ccc"@) is Err {
            Err(req_text_of(c, "ccc"@)->Err_0)
        } else {
            Ok(
                CredentialsView {
                    cik: req_text_of(c, "cik"@)->Ok_0,
                    ccc: req_text_of(c, "ccc"@)->Ok_0,
                },
            )
        },
    }
}

fn parse_credentials(node: &XmlNode) -> (r: Result<Credentials, ParseError>)
    ensures
        result_matches(r, spec_credentials(*node)),
{
    let c = match find_child(node, "credentials") {
        Some(c) => c,
        None => {
            return Err(missing_element("credentials"));
        },
    };
    let cik = get_string(c, "cik")?;
    let ccc = get_string(c, "ccc")?;
    Ok(Credentials { cik, ccc })
}

/// The `filer` block: the block and its credentials are required.
pub open spec fn spec_filer(n: XmlNode) -> Result<FilerView, ParseErrorView> {
    match child_of(n, "filer"@) {
        None => Err(ParseErrorView::MissingRequiredElement("filer"@)),
        Some(c) => match spec_credentials(c) {
            Err(e) => Err(e),
            Ok(credentials) => Ok(
                FilerView { credentials, file_number: child_text(c, "fileNumber"@) },
            ),
        },
    }
}

fn parse_filer(node: &XmlNode) -> (r: Result<Filer, ParseError>)
    ensures
        result_matches(r, spec_filer(*node)),
{
    let c = match find_child(node, "filer") {
        Some(c) => c,
        None => {
            return Err(missing_element("filer"));
        },
    };
    let credentials = parse_credentials(c)?;
    Ok(Filer { credentials, file_number: opt_string(c, "fileNumber") })
}

/// The `filerInfo` block: the block, its `liveTestFlag`, its filer and its
/// `periodOfReport` are required, checked in document order.
pub open spec fn spec_filer_info(n: XmlNode) -> Result<FilerInfoView, ParseErrorView> {
    match child_of(n, "filerInfo"@) {
        None => Err(ParseErrorView::MissingRequiredElement("filerInfo"@)),
        Some(c) => if req_text_of(c, "liveTestFlag"@) is Err {
            Err(req_text_of(c, "liveTestFlag"@)->Err_0)
        } else if spec_filer(c) is Err {
            Err(spec_filer(c)->Err_0)
        } else if req_text_of(c, "periodOfReport"@) is Err {
            Err(req_text_of(c, "periodOfReport"@)->Err_0)
        } else {
            Ok(
                FilerInfoView {
                    live_test_flag: req_text_of(c, "liveTestFlag"@)->Ok_0,
                    flags: spec_flags(c),
                    filer: spec_filer(c)->Ok_0,
                    contact: spec_contact(c),
                    notifications: spec_notifications(c),
                    period_of_report: req_text_of(c, "periodOfReport"@)->Ok_0,
                },
            )
        },
    }
}

fn parse_filer_info(node: &XmlNode) -> (r: Result<FilerInfo, ParseError>)
    ensures
        result_matches(r, spec_filer_info(*node)),
{
    let c = match find_child(node, "filerInfo") {
        Some(c) => c,
        None => {
            return Err(missing_element("filerInfo"));
        },
    };
    let live_test_flag = get_string(c, "liveTestFlag")?;
    let flags = parse_flags(c);
    let filer = parse_filer(c)?;
    let contact = parse_contact(c);
    let notifications = parse_notifications(c);
    let period_of_report = get_string(c, "periodOfReport")?;
    Ok(FilerInfo { live_test_flag, flags, filer, contact, notifications, period_of_report })
}

/// The `headerData` block: the block, its `submissionType` and its filer
/// info are required.
pub open spec fn spec_header_data(n: XmlNode) -> Result<HeaderDataView, ParseErrorView> {
    match child_of(n, "headerData"@) {
        None => Err(ParseErrorView::MissingRequiredElement("headerData"@)),
        Some(c) => if req_text_of(c, "submissionType"@) is Err {
            Err(req_text_of(c, "submissionType"@)->Err_0)
        } else if spec_filer_info(c) is Err {
            Err(spec_filer_info(c)->Err_0)
        } else {
            Ok(
                HeaderDataView {
                    submission_type: req_text_of(c, "submissionType"@)->Ok_0,
                    filer_info: spec_filer_info(c)->Ok_0,
                },
            )
        },
    }
}

fn parse_header_data(node: &XmlNode) -> (r: Result<HeaderData, ParseError>)
    ensures
        result_matches(r, spec_header_data(*node)),
{
    let c = match find_child(node, "headerData") {
        Some(c) => c,
        None => {
            return Err(missing_element("headerData"));
        },
    };
    let submission_type = get_string(c, "submissionType")?;
    let filer_info = parse_filer_info(c)?;
    Ok(HeaderData { submission_type, filer_info })
}

pub open spec fn spec_amendment_info(n: XmlNode) -> Option<AmendmentInfoView> {
    match child_of(n, "amendmentInfo"@) {
        Some(c) => Some(
            AmendmentInfoView {
                amendment_type: child_text(c, "amendmentType"@),
                conf_denied_expired: opt_bool_of(c, "confDeniedExpired"@),
                data_denied_expired: child_text(c, "dataDeniedExpired"@),
                date_reported: child_text(c, "dataReported"@),
                reason_for_non_confidentiality: child_text(c, "reasonForNonConfidentiality"@),
            },
        ),
        None => None,
    }
}

fn parse_amendment_info(node: &XmlNode) -> (r: Option<AmendmentInfo>)
    ensures
        r.deep_view() == spec_amendment_info(*node),
{
    match find_child(node, "amendmentInfo") {
        Some(c) => Some(
            AmendmentInfo {
                amendment_type: opt_string(c, "amendmentType"),
                conf_denied_expired: opt_bool(c, "confDeniedExpired"),
                data_denied_expired: opt_string(c, "dataDeniedExpired"),
                date_reported: opt_string(c, "dataReported"),
                reason_for_non_confidentiality: opt_string(c, "reasonForNonConfidentiality"),
            },
        ),
        None => None,
    }
}

/// A filing manager's address: the block and all its parts but `street2`
/// are required, in document order.
pub open spec fn spec_manager_address(n: XmlNode) -> Result<AddressView, ParseErrorView> {
    match child_of(n, "address"@) {
        None => Err(ParseErrorView::MissingRequiredElement("address"@)),
        Some(c) => if req_text_of(c, "street1"@) is Err {
            Err(req_text_of(c, "street1"@)->Err_0)
        } else if req_text_of(c, "city"@) is Err {
            Err(req_text_of(c, "city"@)->Err_0)
        } else if req_text_of(c, "stateOrCountry"@) is Err {
            Err(req_text_of(c, "stateOrCountry"@)->Err_0)
        } else if req_text_of(c, "zipCode"@) is Err {
            Err(req_text_of(c, "zipCode"@)->Err_0)
        } else {
            Ok(
                AddressView {
                    street1: req_text_of(c, "street1"@)->Ok_0,
                    street2: child_text(c, "street2"@),
                    city: req_text_of(c, "city"@)->Ok_0,
                    state_or_country: req_text_of(c, "stateOrCountry"@)->Ok_0,
                    zip_code: req_text_of(c, "zipCode"@)->Ok_0,
                },
            )
        },
    }
}

fn parse_manager_address(node: &XmlNode) -> (r: Result<Address, ParseError>)
    ensures
        result_matches(r, spec_manager_address(*node)),
{
    let c = match find_child(node, "address") {
        Some(c) => c,
        None => {
            return Err(missing_element("address"));
        },
    };
    let street1 = get_string(c, "street1")?;
    let street2 = opt_string(c, "street2");
    let city = get_string(c, "city")?;
    let state_or_country = get_string(c, "stateOrCountry")?;
    let zip_code = get_string(c, "zipCode")?;
    Ok(Address { street1, street2, city, state_or_country, zip_code })
}

/// The `filingManager` block: the block, its `name` and its address are
/// required.
pub open spec fn spec_filing_manager(n: XmlNode) -> Result<FilingManagerView, ParseErrorView> {
    match child_of(n, "filingManager"@) {
        None => Err(ParseErrorView::MissingRequiredElement("filingManager"@)),
        Some(c) => if req_text_of(c, "name"@) is Err {
            Err(req_text_of(c, "name"@)->Err_0)
        } else {
            match spec_manager_address(c) {
                Err(e) => Err(e),
                Ok(address) => Ok(
                    FilingManagerView { name: req_text_of(c, "name"@)->Ok_0, address },
                ),
            }
        },
    }
}

fn parse_filing_manager(node: &XmlNode) -> (r: Result<FilingManager, ParseError>)
    ensures
        result_matches(r, spec_filing_manager(*node)),
{
    let c = match find_child(node, "filingManager") {
        Some(c) => c,
        None => {
            return Err(missing_element("filingManager"));
        },
    };
    let name = get_string(c, "name")?;
    let address = parse_manager_address(c)?;
    Ok(FilingManager { name, address })
}

pub open spec fn spec_other_manager(n: XmlNode) -> Option<OtherManagerView> {
    match child_of(n, "otherManager"@) {
        Some(c) => Some(
            OtherManagerView {
                cik: child_text(c, "cik"@),
                name: child_text(c, "name"@),
                form_13f_file_number: child_text(c, "form13FFileNumber"@),
            },
        ),
        None => None,
    }
}

fn parse_other_manager(node: &XmlNode) -> (r: Option<OtherManager>)
    ensures
        r.deep_view() == spec_other_manager(*node),
{
    match find_child(node, "otherManager") {
        Some(c) => Some(
            OtherManager {
                cik: opt_string(c, "cik"),
                name: opt_string(c, "name"),
                form_13f_file_number: opt_string(c, "form13FFileNumber"),
            },
        ),
        None => None,
    }
}

pub open spec fn spec_other_manager_info(n: XmlNode) -> Option<OtherManagerInfoView> {
    match child_of(n, "otherManagerInfo"@) {
        Some(c) => Some(OtherManagerInfoView { other_manager: spec_other_manager(c) }),
        None => None,
    }
}

fn parse_other_manager_info(node: &XmlNode) -> (r: Option<OtherManagerInfo>)
    ensures
        r.deep_view() == spec_other_manager_info(*node),
{
    match find_child(node, "otherManagerInfo") {
        Some(c) => Some(OtherManagerInfo { other_manager: parse_other_manager(c) }),
        None => None,
    }
}

/// The cover page: the block, `reportCalendarOrQuarter`, the filing
/// manager, `reportType` and the boolean `provideInfoForInstruction5` are
/// required, checked in document order.
pub open spec fn spec_cover_page(n: XmlNode) -> Result<CoverPageView, ParseErrorView> {
    match child_of(n, "coverPage"@) {
        None => Err(ParseErrorView::MissingRequiredElement("coverPage"@)),
        Some(c) => if req_text_of(c, "reportCalendarOrQuarter"@) is Err {
            Err(req_text_of(c, "reportCalendarOrQuarter"@)->Err_0)
        } else if spec_filing_manager(c) is Err {
            Err(spec_filing_manager(c)->Err_0)
        } else if req_text_of(c, "reportType"@) is Err {
            Err(req_text_of(c, "reportType"@)->Err_0)
        } else if req_bool_of(c, "provideInfoForInstruction5"@) is Err {
            Err(req_bool_of(c, "provideInfoForInstruction5"@)->Err_0)
        } else {
            Ok(
                CoverPageView {
                    report_calendar_or_quarter: req_text_of(c, "reportCalendarOrQuarter"@)->Ok_0,
                    is_amendment: opt_bool_of(c, "isAmendment"@),
                    amendment_number: opt_i32_of(c, "amendmentNumber"@),
                    amendment_info: spec_amendment_info(c),
                    filing_manager: spec_filing_manager(c)->Ok_0,
                    report_type: req_text_of(c, "reportType"@)->Ok_0,
                    form_13f_file_number: child_text(c, "form13FFileNumber"@),
                    other_manager_info: spec_other_manager_info(c),
                    provide_info_for_instruction_5: req_bool_of(c, "provideInfoForInstruction5"@)->Ok_0,
                    additional_information: child_text(c, "additionalInformation"@),
                },
            )
        },
    }
}

fn parse_cover_page(node: &XmlNode) -> (r: Result<CoverPage, ParseError>)
    ensures
        result_matches(r, spec_cover_page(*node)),
{
    let c = match find_child(node, "coverPage") {
        Some(c) => c,
        None => {
            return Err(missing_element("coverPage"));
        },
    };
    let report_calendar_or_quarter = get_string(c, "reportCalendarOrQuarter")?;
    let is_amendment = opt_bool(c, "isAmendment");
    let amendment_number = opt_i32(c, "amendmentNumber");
    let amendment_info = parse_amendment_info(c);
    let filing_manager = parse_filing_manager(c)?;
    let report_type = get_string(c, "reportType")?;
    let form_13f_file_number = opt_string(c, "form13FFileNumber");
    let other_manager_info = parse_other_manager_info(c);
    let provide_info_for_instruction_5 = get_bool(c, "provideInfoForInstruction5")?;
    let additional_information = opt_string(c, "additionalInformation");
    Ok(
        CoverPage {
            report_calendar_or_quarter,
            is_amendment,
            amendment_number,
            amendment_info,
            filing_manager,
            report_type,
            form_13f_file_number,
            other_manager_info,
            provide_info_for_instruction_5,
            additional_information,
        },
    )
}

/// The signature block: the block and all seven of its parts are required,
/// in document order.
pub open spec fn spec_signature_block(n: XmlNode) -> Result<SignatureBlockView, ParseErrorView> {
    match child_of(n, "signatureBlock"@) {
        None => Err(ParseErrorView::MissingRequiredElement("signatureBlock"@)),
        Some(c) => if req_text_of(c, "name"@) is Err {
            Err(req_text_of(c, "name"@)->Err_0)
        } else if req_text_of(c, "title"@) is Err {
            Err(req_text_of(c, "title"@)->Err_0)
        } else if req_text_of(c, "phone"@) is Err {
            Err(req_text_of(c, "phone"@)->Err_0)
        } else if req_text_of(c, "signature"@) is Err {
            Err(req_text_of(c, "signature"@)->Err_0)
        } else if req_text_of(c, "city"@) is Err {
            Err(req_text_of(c, "city"@)->Err_0)
        } else if req_text_of(c, "stateOrCountry"@) is Err {
            Err(req_text_of(c, "stateOrCountry"@)->Err_0)
        } else if req_text_of(c, "signatureDate"@) is Err {
            Err(req_text_of(c, "signatureDate"@)->Err_0)
        } else {
            Ok(
                SignatureBlockView {
                    name: req_text_of(c, "name"@)->Ok_0,
                    title: req_text_of(c, "title"@)->Ok_0,
                    phone: req_text_of(c, "phone"@)->Ok_0,
                    signature: req_text_of(c, "signature"@)->Ok_0,
                    city: req_text_of(c, "city"@)->Ok_0,
                    state_or_country: req_text_of(c, "stateOrCountry"@)->Ok_0,
                    signature_date: req_text_of(c, "signatureDate"@)->Ok_0,
                },
            )
        },
    }
}

fn parse_signature_block(node: &XmlNode) -> (r: Result<SignatureBlock, ParseError>)
    ensures
        result_matches(r, spec_signature_block(*node)),
{
    let c = match find_child(node, "signatureBlock") {
        Some(c) => c,
        None => {
            return Err(missing_element("signatureBlock"));
        },
    };
    let name = get_string(c, "name")?;
    let title = get_string(c, "title")?;
    let phone = get_string(c, "phone")?;
    let signature = get_string(c, "signature")?;
    let city = get_string(c, "city")?;
    let state_or_country = get_string(c, "stateOrCountry")?;
    let signature_date = get_string(c, "signatureDate")?;
    Ok(
        SignatureBlock {
            name,
            title,
            phone,
            signature,
            city,
            state_or_country,
            signature_date,
        },
    )
}

pub open spec fn spec_manager_with_sequence(c: XmlNode) -> OtherManagerWithSequenceView {
    OtherManagerWithSequenceView {
        sequence_number: opt_i32_of(c, "sequenceNumber"@),
        manager: spec_other_manager(c),
    }
}

/// The managers one `otherManagers2Info` container lists at or after `i`.
pub open spec fn spec_manager_items(s: Seq<XmlNode>, i: int) -> Seq<OtherManagerWithSequenceView>
    decreases s.len() - i,
{
    if i < 0 || i >= s.len() {
        Seq::empty()
    } else {
        let rest = spec_manager_items(s, i + 1);
        if s[i].tag@ == "otherManager2"@ {
            seq![spec_manager_with_sequence(s[i])] + rest
        } else {
            rest
        }
    }
}

/// The managers all `otherManagers2Info` containers at or after `i` list,
/// flattened in document order.
pub open spec fn spec_other_managers(s: Seq<XmlNode>, i: int) -> Seq<OtherManagerWithSequenceView>
    decreases s.len() - i,
{
    if i < 0 || i >= s.len() {
        Seq::empty()
    } else {
        let rest = spec_other_managers(s, i + 1);
        if s[i].tag@ == "otherManagers2Info"@ {
            spec_manager_items(s[i].children@, 0) + rest
        } else {
            rest
        }
    }
}

fn parse_manager_items(container: &XmlNode) -> (r: Vec<OtherManagerWithSequence>)
    ensures
        r.deep_view() == spec_manager_items(container.children@, 0),
{
    let mut out: Vec<OtherManagerWithSequence> = Vec::new();
    let n = container.children.len();
    let mut i: usize = 0;
    while i < n
        invariant
            0 <= i <= n,
            n == container.children@.len(),
            spec_manager_items(container.children@, 0) == out.deep_view() + spec_manager_items(
                container.children@,
                i as int,
            ),
        decreases n - i,
    {
        let ghost s = container.children@;
        let c = &container.children[i];
        if str_eq(c.tag.as_str(), "otherManager2") {
            let ghost pre = out.deep_view();
            let item = OtherManagerWithSequence {
                sequence_number: opt_i32(c, "sequenceNumber"),
                manager: parse_other_manager(c),
            };
            out.push(item);
            proof {
                assert(out.deep_view() =~~= pre.push(out@.last().deep_view()));
                assert(pre + (seq![out@.last().deep_view()] + spec_manager_items(s, i + 1 as int))
                    =~~= out.deep_view() + spec_manager_items(s, i + 1 as int));
            }
        }
        i += 1;
    }
    proof {
        assert(out.deep_view() + spec_manager_items(container.children@, n as int)
            =~~= out.deep_view());
    }
    out
}

fn parse_other_managers(node: &XmlNode) -> (r: Vec<OtherManagerWithSequence>)
    ensures
        r.deep_view() == spec_other_managers(node.children@, 0),
{
    let mut out: Vec<OtherManagerWithSequence> = Vec::new();
    let n = node.children.len();
    let mut i: usize = 0;
    while i < n
        invariant
            0 <= i <= n,
            n == node.children@.len(),
            spec_other_managers(node.children@, 0) == out.deep_view() + spec_other_managers(
                node.children@,
                i as int,
            ),
        decreases n - i,
    {
        let ghost s = node.children@;
        let c = &node.children[i];
        if str_eq(c.tag.as_str(), "otherManagers2Info") {
            let ghost pre = out.deep_view();
            let mut items = parse_manager_items(c);
            let ghost mids = items.deep_view();
            out.append(&mut items);
            proof {
                assert(out.deep_view() =~~= pre + mids);
                assert(pre + (mids + spec_other_managers(s, i + 1 as int)) =~~= (pre + mids)
                    + spec_other_managers(s, i + 1 as int));
            }
        }
        i += 1;
    }
    proof {
        assert(out.deep_view() + spec_other_managers(node.children@, n as int)
            =~~= out.deep_view());
    }
    out
}

/// The summary page, where it exists: its three counts are then required,
/// in document order.
pub open spec fn spec_summary_page(n: XmlNode) -> Result<Option<SummaryPageView>, ParseErrorView> {
    match child_of(n, "summaryPage"@) {
        None => Ok(None),
        Some(c) => if req_i32_of(c, "otherIncludedManagersCount"@) is Err {
            Err(req_i32_of(c, "otherIncludedManagersCount"@)->Err_0)
        } else if req_i32_of(c, "tableEntryTotal"@) is Err {
            Err(req_i32_of(c, "tableEntryTotal"@)->Err_0)
        } else if req_i64_of(c, "tableValueTotal"@) is Err {
            Err(req_i64_of(c, "tableValueTotal"@)->Err_0)
        } else {
            Ok(
                Some(
                    SummaryPageView {
                        other_included_managers_count: req_i32_of(
                            c,
                            "otherIncludedManagersCount"@,
                        )->Ok_0,
                        table_entry_total: req_i32_of(c, "tableEntryTotal"@)->Ok_0,
                        table_value_total: req_i64_of(c, "tableValueTotal"@)->Ok_0,
                        is_confidential_omitted: opt_bool_of(c, "isConfidentialOmitted"@),
                        other_managers: spec_other_managers(c.children@, 0),
                    },
                ),
            )
        },
    }
}

fn parse_summary_page(node: &XmlNode) -> (r: Result<Option<SummaryPage>, ParseError>)
    ensures
        result_matches(r, spec_summary_page(*node)),
{
    let c = match find_child(node, "summaryPage") {
        Some(c) => c,
        None => {
            return Ok(None);
        },
    };
    let other_included_managers_count = get_int32(c, "otherIncludedManagersCount")?;
    let table_entry_total = get_int32(c, "tableEntryTotal")?;
    let table_value_total = get_int64(c, "tableValueTotal")?;
    let is_confidential_omitted = opt_bool(c, "isConfidentialOmitted");
    let other_managers = parse_other_managers(c);
    Ok(
        Some(
            SummaryPage {
                other_included_managers_count,
                table_entry_total,
                table_value_total,
                is_confidential_omitted,
                other_managers,
            },
        ),
    )
}

pub open spec fn spec_other_document(c: XmlNode) -> OtherDocumentView {
    OtherDocumentView {
        conformed_name: child_text(c, "conformedName"@),
        conformed_document_type: child_text(c, "conformedDocumentType"@),
        description: child_text(c, "description"@),
        contents: child_text(c, "contents"@),
    }
}

/// The documents one `documents` container lists at or after `i`.
pub open spec fn spec_document_items(s: Seq<XmlNode>, i: int) -> Seq<OtherDocumentView>
    decreases s.len() - i,
{
    if i < 0 || i >= s.len() {
        Seq::empty()
    } else {
        let rest = spec_document_items(s, i + 1);
        if s[i].tag@ == "document"@ {
            seq![spec_other_document(s[i])] + rest
        } else {
            rest
        }
    }
}

/// The documents all `documents` containers at or after `i` list, flattened
/// in document order.
pub open spec fn spec_documents(s: Seq<XmlNode>, i: int) -> Seq<OtherDocumentView>
    decreases s.len() - i,
{
    if i < 0 || i >= s.len() {
        Seq::empty()
    } else {
        let rest = spec_documents(s, i + 1);
        if s[i].tag@ == "documents"@ {
            spec_document_items(s[i].children@, 0) + rest
        } else {
            rest
        }
    }
}

fn parse_document_items(container: &XmlNode) -> (r: Vec<OtherDocument>)
    ensures
        r.deep_view() == spec_document_items(container.children@, 0),
{
    let mut out: Vec<OtherDocument> = Vec::new();
    let n = container.children.len();
    let mut i: usize = 0;
    while i < n
        invariant
            0 <= i <= n,
            n == container.children@.len(),
            spec_document_items(container.children@, 0) == out.deep_view() + spec_document_items(
                container.children@,
                i as int,
            ),
        decreases n - i,
    {
        let ghost s = container.children@;
        let c = &container.children[i];
        if str_eq(c.tag.as_str(), "document") {
            let ghost pre = out.deep_view();
            let item = OtherDocument {
                conformed_name: opt_string(c, "conformedName"),
                conformed_document_type: opt_string(c, "conformedDocumentType"),
                description: opt_string(c, "description"),
                contents: opt_string(c, "contents"),
            };
            out.push(item);
            proof {
                assert(out.deep_view() =~~= pre.push(out@.last().deep_view()));
                assert(pre + (seq![out@.last().deep_view()] + spec_document_items(s, i + 1 as int))
                    =~~= out.deep_view() + spec_document_items(s, i + 1 as int));
            }
        }
        i += 1;
    }
    proof {
        assert(out.deep_view() + spec_document_items(container.children@, n as int)
            =~~= out.deep_view());
    }
    out
}

fn parse_documents(node: &XmlNode) -> (r: Vec<OtherDocument>)
    ensures
        r.deep_view() == spec_documents(node.children@, 0),
{
    let mut out: Vec<OtherDocument> = Vec::new();
    let n = node.children.len();
    let mut i: usize = 0;
    while i < n
        invariant
            0 <= i <= n,
            n == node.children@.len(),
            spec_documents(node.children@, 0) == out.deep_view() + spec_documents(
                node.children@,
                i as int,
            ),
        decreases n - i,
    {
        let ghost s = node.children@;
        let c = &node.children[i];
        if str_eq(c.tag.as_str(), "documents") {
            let ghost pre = out.deep_view();
            let mut items = parse_document_items(c);
            let ghost mids = items.deep_view();
            out.append(&mut items);
            proof {
                assert(out.deep_view() =~~= pre + mids);
                assert(pre + (mids + spec_documents(s, i + 1 as int)) =~~= (pre + mids)
                    + spec_documents(s, i + 1 as int));
            }
        }
        i += 1;
    }
    proof {
        assert(out.deep_view() + spec_documents(node.children@, n as int) =~~= out.deep_view());
    }
    out
}

/// The `formData` block: the block, the cover page and the signature block
/// are required; the summary page is optional but must be whole where it
/// stands.
pub open spec fn spec_form_data(n: XmlNode) -> Result<FormDataView, ParseErrorView> {
    match child_of(n, "formData"@) {
        None => Err(ParseErrorView::MissingRequiredElement("formData"@)),
        Some(c) => if spec_cover_page(c) is Err {
            Err(spec_cover_page(c)->Err_0)
        } else if spec_signature_block(c) is Err {
            Err(spec_signature_block(c)->Err_0)
        } else if spec_summary_page(c) is Err {
            Err(spec_summary_page(c)->Err_0)
        } else {
            Ok(
                FormDataView {
                    cover_page: spec_cover_page(c)->Ok_0,
                    signature_block: spec_signature_block(c)->Ok_0,
                    summary_page: spec_summary_page(c)->Ok_0,
                    documents: spec_documents(c.children@, 0),
                },
            )
        },
    }
}

fn parse_form_data(node: &XmlNode) -> (r: Result<FormData, ParseError>)
    ensures
        result_matches(r, spec_form_data(*node)),
{
    let c = match find_child(node, "formData") {
        Some(c) => c,
        None => {
            return Err(missing_element("formData"));
        },
    };
    let cover_page = parse_cover_page(c)?;
    let signature_block = parse_signature_block(c)?;
    let summary_page = parse_summary_page(c)?;
    let documents = parse_documents(c);
    Ok(FormData { cover_page, signature_block, summary_page, documents })
}

/// What a 13F primary document tree decodes to: header first, then form
/// data, the first missing or unreadable required field the document's
/// single error.
pub open spec fn spec_form13f(n: XmlNode) -> Result<DocumentView, ParseErrorView> {
    if spec_header_data(n) is Err {
        Err(spec_header_data(n)->Err_0)
    } else if spec_form_data(n) is Err {
        Err(spec_form_data(n)->Err_0)
    } else {
        Ok(
            DocumentView {
                schema_version: child_text(n, "schemaVersion"@),
                header_data: spec_header_data(n)->Ok_0,
                form_data: spec_form_data(n)->Ok_0,
            },
        )
    }
}

/// Decodes a 13F primary document from its element tree, as
/// [`spec_form13f`] says.
pub fn form13f_from_tree(root: &XmlNode) -> (r: Result<Document, ParseError>)
    ensures
        result_matches(r, spec_form13f(*root)),
{
    let schema_version = opt_string(root, "schemaVersion");
    let header_data = parse_header_data(root)?;
    let form_data = parse_form_data(root)?;
    Ok(Document { schema_version, header_data, form_data })
}

/// Exactly what [`parse_form13f_document`] returns for `text`: the reader's
/// outcome, then the tree decode; text that is not well-formed XML is the
/// malformed-XML error carrying the reader's diagnostic.
pub open spec fn parse_form13f_post(r: Result<Document, ParseError>, text: Seq<char>) -> bool {
    match xml_parse(text) {
        Ok(root) => result_matches(r, spec_form13f(root)),
        Err(d) => r matches Err(ParseError::MalformedXml(m)) && m@ == d,
    }
}

/// Parses a 13F primary document, as [`parse_form13f_post`] says.
pub fn parse_form13f_document(xml: &str) -> (r: Result<Document, ParseError>)
    ensures
        parse_form13f_post(r, xml@),
{
    match parse_tree(xml) {
        Ok(root) => form13f_from_tree(&root),
        Err(msg) => Err(ParseError::MalformedXml(msg)),
    }
}

/// The share-or-principal amount of a table entry: the block and both its
/// parts are required, in document order.
pub open spec fn spec_shares_or_print(c: XmlNode) -> Result<
    SharesOrPrintAmountView,
    ParseErrorView,
> {
    match child_of(c, "shrsOrPrnAmt"@) {
        None => Err(ParseErrorView::MissingRequiredElement("shrsOrPrnAmt"@)),
        Some(s) => if req_i64_of(s, "sshPrnamt"@) is Err {
            Err(req_i64_of(s, "sshPrnamt"@)->Err_0)
        } else if req_text_of(s, "sshPrnamtType"@) is Err {
            Err(req_text_of(s, "sshPrnamtType"@)->Err_0)
        } else {
            Ok(
                SharesOrPrintAmountView {
                    amount: req_i64_of(s, "sshPrnamt"@)->Ok_0,
                    shares_or_print_type: req_text_of(s, "sshPrnamtType"@)->Ok_0,
                },
            )
        },
    }
}

/// The voting authority of a table entry: the block and its three counts
/// are required, in document order.
pub open spec fn spec_voting_authority(c: XmlNode) -> Result<VotingAuthorityView, ParseErrorView> {
    match child_of(c, "votingAuthority"@) {
        None => Err(ParseErrorView::MissingRequiredElement("votingAuthority"@)),
        Some(v) => if req_i32_of(v, "Sole"@) is Err {
            Err(req_i32_of(v, "Sole"@)->Err_0)
        } else if req_i32_of(v, "Shared"@) is Err {
            Err(req_i32_of(v, "Shared"@)->Err_0)
        } else if req_i32_of(v, "None"@) is Err {
            Err(req_i32_of(v, "None"@)->Err_0)
        } else {
            Ok(
                VotingAuthorityView {
                    sole: req_i32_of(v, "Sole"@)->Ok_0,
                    shared: req_i32_of(v, "Shared"@)->Ok_0,
                    none: req_i32_of(v, "None"@)->Ok_0,
                },
            )
        },
    }
}

/// What one `infoTable` entry decodes to. The entry's required fields are
/// checked in document order; the first one missing or unreadable is the
/// error, which fails the whole table.
pub open spec fn spec_table_entry(c: XmlNode) -> Result<TableEntryView, ParseErrorView> {
    if req_text_of(c, "nameOfIssuer"@) is Err {
        Err(req_text_of(c, "nameOfIssuer"@)->Err_0)
    } else if req_text_of(c, "titleOfClass"@) is Err {
        Err(req_text_of(c, "titleOfClass"@)->Err_0)
    } else if req_text_of(c, "cusip"@) is Err {
        Err(req_text_of(c, "cusip"@)->Err_0)
    } else if req_i64_of(c, "value"@) is Err {
        Err(req_i64_of(c, "value"@)->Err_0)
    } else if spec_shares_or_print(c) is Err {
        Err(spec_shares_or_print(c)->Err_0)
    } else if req_text_of(c, "investmentDiscretion"@) is Err {
        Err(req_text_of(c, "investmentDiscretion"@)->Err_0)
    } else if spec_voting_authority(c) is Err {
        Err(spec_voting_authority(c)->Err_0)
    } else {
        Ok(
            TableEntryView {
                name_of_issuer: req_text_of(c, "nameOfIssuer"@)->Ok_0,
                title_of_class: req_text_of(c, "titleOfClass"@)->Ok_0,
                cusip: req_text_of(c, "cusip"@)->Ok_0,
                figi: child_text(c, "figi"@),
                value: req_i64_of(c, "value"@)->Ok_0,
                shares_or_print_amount: spec_shares_or_print(c)->Ok_0,
                put_call: child_text(c, "putCall"@),
                investment_discretion: req_text_of(c, "investmentDiscretion"@)->Ok_0,
                other_manager: ints_of_children(c.children@, "otherManager"@, 0),
                voting_authority: spec_voting_authority(c)->Ok_0,
            },
        )
    }
}

fn parse_shares_or_print(c: &XmlNode) -> (r: Result<SharesOrPrintAmount, ParseError>)
    ensures
        result_matches(r, spec_shares_or_print(*c)),
{
    let s = match find_child(c, "shrsOrPrnAmt") {
        Some(s) => s,
        None => {
            return Err(missing_element("shrsOrPrnAmt"));
        },
    };
    let amount = get_int64(s, "sshPrnamt")?;
    let shares_or_print_type = get_string(s, "sshPrnamtType")?;
    Ok(SharesOrPrintAmount { amount, shares_or_print_type })
}

fn parse_voting_authority(c: &XmlNode) -> (r: Result<VotingAuthority, ParseError>)
    ensures
        result_matches(r, spec_voting_authority(*c)),
{
    let v = match find_child(c, "votingAuthority") {
        Some(v) => v,
        None => {
            return Err(missing_element("votingAuthority"));
        },
    };
    let sole = get_int32(v, "Sole")?;
    let shared = get_int32(v, "Shared")?;
    let none = get_int32(v, "None")?;
    Ok(VotingAuthority { sole, shared, none })
}

fn parse_table_entry(c: &XmlNode) -> (r: Result<TableEntry, ParseError>)
    ensures
        result_matches(r, spec_table_entry(*c)),
{
    let name_of_issuer = get_string(c, "nameOfIssuer")?;
    let title_of_class = get_string(c, "titleOfClass")?;
    let cusip = get_string(c, "cusip")?;
    let value = get_int64(c, "value")?;
    let shares_or_print_amount = parse_shares_or_print(c)?;
    let investment_discretion = get_string(c, "investmentDiscretion")?;
    let voting_authority = parse_voting_authority(c)?;
    let other_manager = get_ints(c, "otherManager");
    proof {
        assert(other_manager.deep_view() =~= other_manager@);
    }
    Ok(
        TableEntry {
            name_of_issuer,
            title_of_class,
            cusip,
            figi: opt_string(c, "figi"),
            value,
            shares_or_print_amount,
            put_call: opt_string(c, "putCall"),
            investment_discretion,
            other_manager,
            voting_authority,
        },
    )
}

/// The table entries the `infoTable` children at or after `i` decode to,
/// in document order, or the first entry's failure: one incomplete entry
/// fails the whole table.
pub open spec fn spec_table_entries(s: Seq<XmlNode>, i: int) -> Result<
    Seq<TableEntryView>,
    ParseErrorView,
>
    decreases s.len() - i,
{
    if i < 0 || i >= s.len() {
        Ok(Seq::empty())
    } else {
        let rest = spec_table_entries(s, i + 1);
        if s[i].tag@ == "infoTable"@ {
            match spec_table_entry(s[i]) {
                Ok(e) => prepend_items(seq![e], rest),
                Err(e) => Err(e),
            }
        } else {
            rest
        }
    }
}

/// What a 13F information table tree decodes to: every `infoTable` child,
/// in document order, or the first incomplete entry's error.
pub open spec fn spec_table(root: XmlNode) -> Result<TableView, ParseErrorView> {
    match spec_table_entries(root.children@, 0) {
        Ok(entries) => Ok(TableView { entries }),
        Err(e) => Err(e),
    }
}

/// Decodes a 13F information table from its element tree, as
/// [`spec_table`] says: one entry per `infoTable` child, in document order,
/// and the first incomplete entry fails the whole table.
pub fn table_from_tree(root: &XmlNode) -> (r: Result<Table, ParseError>)
    ensures
        result_matches(r, spec_table(*root)),
{
    let mut out: Vec<TableEntry> = Vec::new();
    let n = root.children.len();
    let mut i: usize = 0;
    while i < n
        invariant
            0 <= i <= n,
            n == root.children@.len(),
            spec_table_entries(root.children@, 0) == prepend_items(
                out.deep_view(),
                spec_table_entries(root.children@, i as int),
            ),
        decreases n - i,
    {
        let ghost s = root.children@;
        let c = &root.children[i];
        if str_eq(c.tag.as_str(), "infoTable") {
            let ghost pre = out.deep_view();
            match parse_table_entry(c) {
                Ok(e) => {
                    out.push(e);
                    proof {
                        assert(out.deep_view() =~~= pre.push(out@.last().deep_view()));
                        match spec_table_entries(s, i + 1 as int) {
                            Ok(rest) => {
                                assert(pre + (seq![out@.last().deep_view()] + rest)
                                    =~~= out.deep_view() + rest);
                            },
                            Err(_) => {},
                        }
                    }
                },
                Err(e) => {
                    return Err(e);
                },
            }
        }
        i += 1;
    }
    proof {
        assert(spec_table_entries(root.children@, n as int) == Ok::<_, ParseErrorView>(
            Seq::<TableEntryView>::empty(),
        ));
        assert(out.deep_view() + Seq::<TableEntryView>::empty() =~~= out.deep_view());
    }
    Ok(Table { entries: out })
}

/// Exactly what [`parse_form13f_table`] returns for `text`: the reader's
/// outcome, then the tree decode; an incomplete entry is the first missing
/// or unreadable tag's error, and text that is not well-formed XML is the
/// malformed-XML error carrying the reader's diagnostic.
pub open spec fn parse_form13f_table_post(r: Result<Table, ParseError>, text: Seq<char>) -> bool {
    match xml_parse(text) {
        Ok(root) => result_matches(r, spec_table(root)),
        Err(d) => r matches Err(ParseError::MalformedXml(m)) && m@ == d,
    }
}

/// Parses a 13F information table, as [`parse_form13f_table_post`] says.
pub fn parse_form13f_table(xml: &str) -> (r: Result<Table, ParseError>)
    ensures
        parse_form13f_table_post(r, xml@),
{
    match parse_tree(xml) {
        Ok(root) => table_from_tree(&root),
        Err(msg) => Err(ParseError::MalformedXml(msg)),
    }
}

/// Parsing is a function of the text alone: two results of
/// [`parse_form13f_document`] on equal text are structurally equal —
/// variant, fields, error and diagnostic alike.
pub proof fn lemma_parse_form13f_deterministic(
    r1: Result<Document, ParseError>,
    r2: Result<Document, ParseError>,
    text: Seq<char>,
)
    requires
        parse_form13f_post(r1, text),
        parse_form13f_post(r2, text),
    ensures
        match (r1, r2) {
            (Ok(a), Ok(b)) => a.deep_view() == b.deep_view(),
            (Err(a), Err(b)) => a.deep_view() == b.deep_view(),
            _ => false,
        },
{
}

/// The same, for the information table.
pub proof fn lemma_parse_table_deterministic(
    r1: Result<Table, ParseError>,
    r2: Result<Table, ParseError>,
    text: Seq<char>,
)
    requires
        parse_form13f_table_post(r1, text),
        parse_form13f_table_post(r2, text),
    ensures
        match (r1, r2) {
            (Ok(a), Ok(b)) => a.deep_view() == b.deep_view(),
            (Err(a), Err(b)) => a.deep_view() == b.deep_view(),
            _ => false,
        },
{
}

} // verus!
