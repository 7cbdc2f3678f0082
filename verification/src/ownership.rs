//! The ownership-report decoder (the combined Forms 3/4/5 family): a
//! schema-driven recursive descent into nested records, every scalar leaf a
//! value-plus-footnote wrapper.
//!
//! One failure policy is chosen per call. Under [`Policy::Lenient`] every
//! field is optional and only malformed XML fails. Under [`Policy::Strict`]
//! the fields the published schema requires must be present, and the first
//! absence fails the whole document: `documentType`, `periodOfReport`, the
//! `issuer` block (with `issuerCik`, `issuerName`, `issuerTradingSymbol`),
//! the `reportingOwner` block (with `reportingOwnerId` and its
//! `rptOwnerCik`), and the `ownerSignature` block (with `signatureName` and
//! `signatureDate`). Table records and their leaves are optional under
//! either policy, and collections are never required: zero matches is an
//! empty collection.

use vstd::prelude::*;
use crate::error::{missing_element, result_matches, ParseError, ParseErrorView};
use crate::reader::{parse_tree, xml_parse};
use crate::value::{coerced, parse_value, Value, ValueView};
use crate::xml::{attr_of, child_of, child_text, find_attr, find_child, opt_bool, opt_bool_of,
    opt_string, str_eq, text_of, text_string, XmlNode};

verus! {

/// Which failure policy a parse applies.
#[derive(Debug, Clone, Copy, PartialEq, Eq, Structural)]
pub enum Policy {
    /// A missing required field aborts the whole document.
    Strict,
    /// Every field is optional; only malformed XML aborts.
    Lenient,
}

/// A scalar leaf: the coerced value and the footnote id it may carry.
#[derive(Debug, Clone, PartialEq)]
pub struct ValueFootnote {
    pub value: Option<Value>,
    pub footnote_id: Option<String>,
}

#[derive(Debug, Clone, PartialEq)]
pub struct Issuer {
    pub cik: Option<String>,
    pub name: Option<String>,
    pub trading_symbol: Option<String>,
}

#[derive(Debug, Clone, PartialEq)]
pub struct ReportingOwnerID {
    pub cik: Option<String>,
    pub ccc: Option<String>,
    pub name: Option<String>,
}

#[derive(Debug, Clone, PartialEq)]
pub struct ReportingOwnerAddress {
    pub street1: Option<String>,
    pub street2: Option<String>,
    pub city: Option<String>,
    pub state: Option<String>,
    pub zip_code: Option<String>,
    pub state_description: Option<String>,
}

#[derive(Debug, Clone, PartialEq)]
pub struct ReportingOwnerRelationship {
    pub is_director: Option<bool>,
    pub is_officer: Option<bool>,
    pub is_ten_percent_owner: Option<bool>,
    pub is_other: Option<bool>,
    pub officer_title: Option<String>,
    pub other_text: Option<String>,
}

#[derive(Debug, Clone, PartialEq)]
pub struct ReportingOwner {
    pub id: Option<ReportingOwnerID>,
    pub address: Option<ReportingOwnerAddress>,
    pub relationship: Option<ReportingOwnerRelationship>,
}

#[derive(Debug, Clone, PartialEq)]
pub struct TransactionCoding {
    pub form_type: Option<String>,
    pub transaction_code: Option<String>,
    pub equity_swap_involved: Option<bool>,
    pub footnote_id: Option<String>,
}

#[derive(Debug, Clone, PartialEq)]
pub struct HoldingCoding {
    pub form_type: Option<String>,
    pub footnote_id: Option<String>,
}

#[derive(Debug, Clone, PartialEq)]
pub struct TransactionAmounts {
    pub shares: Option<ValueFootnote>,
    pub price_per_share: Option<ValueFootnote>,
    pub acquired_disposed_code: Option<ValueFootnote>,
}

#[derive(Debug, Clone, PartialEq)]
pub struct DerivativeTransactionAmounts {
    pub shares: Option<ValueFootnote>,
    pub price_per_share: Option<ValueFootnote>,
    pub total_value: Option<ValueFootnote>,
    pub acquired_disposed_code: Option<ValueFootnote>,
}

#[derive(Debug, Clone, PartialEq)]
pub struct UnderlyingSecurity {
    pub title: Option<ValueFootnote>,
    pub shares: Option<ValueFootnote>,
    pub value: Option<ValueFootnote>,
}

#[derive(Debug, Clone, PartialEq)]
pub struct PostTransactionAmounts {
    pub shares_owned_following_transaction: Option<ValueFootnote>,
    pub value_owned_following_transaction: Option<ValueFootnote>,
}

#[derive(Debug, Clone, PartialEq)]
pub struct OwnershipNature {
    pub direct_or_indirect_ownership: Option<ValueFootnote>,
    pub nature_of_ownership: Option<ValueFootnote>,
}

#[derive(Debug, Clone, PartialEq)]
pub struct NonDerivativeTransaction {
    pub security_title: Option<ValueFootnote>,
    pub transaction_date: Option<ValueFootnote>,
    pub deemed_execution_date: Option<ValueFootnote>,
    pub transaction_coding: Option<TransactionCoding>,
    pub transaction_timeliness: Option<ValueFootnote>,
    pub transaction_amounts: Option<TransactionAmounts>,
    pub post_transaction_amounts: Option<PostTransactionAmounts>,
    pub ownership_nature: Option<OwnershipNature>,
}

#[derive(Debug, Clone, PartialEq)]
pub struct DerivativeTransaction {
    pub security_title: Option<ValueFootnote>,
    pub conversion_or_exercise_price: Option<ValueFootnote>,
    pub deemed_execution_date: Option<ValueFootnote>,
    pub transaction_coding: Option<TransactionCoding>,
    pub transaction_timeliness: Option<ValueFootnote>,
    pub transaction_amounts: Option<DerivativeTransactionAmounts>,
    pub exercise_date: Option<ValueFootnote>,
    pub expiration_date: Option<ValueFootnote>,
    pub underlying_security: Option<UnderlyingSecurity>,
    pub post_transaction_amounts: Option<PostTransactionAmounts>,
    pub ownership_nature: Option<OwnershipNature>,
}

#[derive(Debug, Clone, PartialEq)]
pub struct NonDerivativeHolding {
    pub security_title: Option<ValueFootnote>,
    pub transaction_coding: Option<HoldingCoding>,
    pub post_transaction_amounts: Option<PostTransactionAmounts>,
    pub ownership_nature: Option<OwnershipNature>,
}

#[derive(Debug, Clone, PartialEq)]
pub struct DerivativeHolding {
    pub security_title: Option<ValueFootnote>,
    pub conversion_or_exercise_price: Option<ValueFootnote>,
    pub transaction_coding: Option<HoldingCoding>,
    pub exercise_date: Option<ValueFootnote>,
    pub expiration_date: Option<ValueFootnote>,
    pub underlying_security: Option<UnderlyingSecurity>,
    pub post_transaction_amounts: Option<PostTransactionAmounts>,
    pub ownership_nature: Option<OwnershipNature>,
}

#[derive(Debug, Clone, PartialEq)]
pub struct NonDerivativeTable {
    pub transactions: Vec<NonDerivativeTransaction>,
    pub holdings: Vec<NonDerivativeHolding>,
}

#[derive(Debug, Clone, PartialEq)]
pub struct DerivativeTable {
    pub transactions: Vec<DerivativeTransaction>,
    pub holdings: Vec<DerivativeHolding>,
}

#[derive(Debug, Clone, PartialEq)]
pub struct Footnote {
    pub id: Option<String>,
    pub note: Option<String>,
}

#[derive(Debug, Clone, PartialEq)]
pub struct OwnerSignature {
    pub name: Option<String>,
    pub date: Option<String>,
}

/// An ownership report: every nested record either present with its
/// subfields or entirely absent.
#[derive(Debug, Clone, PartialEq)]
pub struct Document {
    pub schema_version: Option<String>,
    pub document_type: Option<String>,
    pub period_of_report: Option<String>,
    pub date_of_original_submission: Option<String>,
    pub no_securities_owned: Option<bool>,
    pub not_subject_to_section_16: Option<bool>,
    pub form3_holdings_reported: Option<bool>,
    pub form4_transactions_reported: Option<bool>,
    pub issuer: Option<Issuer>,
    pub reporting_owner: Option<ReportingOwner>,
    pub aff10b5_one: Option<bool>,
    pub non_derivative_table: Option<NonDerivativeTable>,
    pub derivative_table: Option<DerivativeTable>,
    pub footnotes: Vec<Footnote>,
    pub remarks: Option<String>,
    pub owner_signature: Option<OwnerSignature>,
}

pub struct ValueFootnoteView {
    pub value: Option<ValueView>,
    pub footnote_id: Option<Seq<char>>,
}

pub struct IssuerView {
    pub cik: Option<Seq<char>>,
    pub name: Option<Seq<char>>,
    pub trading_symbol: Option<Seq<char>>,
}

pub struct ReportingOwnerIDView {
    pub cik: Option<Seq<char>>,
    pub ccc: Option<Seq<char>>,
    pub name: Option<Seq<char>>,
}

pub struct ReportingOwnerAddressView {
    pub street1: Option<Seq<char>>,
    pub street2: Option<Seq<char>>,
    pub city: Option<Seq<char>>,
    pub state: Option<Seq<char>>,
    pub zip_code: Option<Seq<char>>,
    pub state_description: Option<Seq<char>>,
}

pub struct ReportingOwnerRelationshipView {
    pub is_director: Option<bool>,
    pub is_officer: Option<bool>,
    pub is_ten_percent_owner: Option<bool>,
    pub is_other: Option<bool>,
    pub officer_title: Option<Seq<char>>,
    pub other_text: Option<Seq<char>>,
}

pub struct ReportingOwnerView {
    pub id: Option<ReportingOwnerIDView>,
    pub address: Option<ReportingOwnerAddressView>,
    pub relationship: Option<ReportingOwnerRelationshipView>,
}

pub struct TransactionCodingView {
    pub form_type: Option<Seq<char>>,
    pub transaction_code: Option<Seq<char>>,
    pub equity_swap_involved: Option<bool>,
    pub footnote_id: Option<Seq<char>>,
}

pub struct HoldingCodingView {
    pub form_type: Option<Seq<char>>,
    pub footnote_id: Option<Seq<char>>,
}

pub struct TransactionAmountsView {
    pub shares: Option<ValueFootnoteView>,
    pub price_per_share: Option<ValueFootnoteView>,
    pub acquired_disposed_code: Option<ValueFootnoteView>,
}

pub struct DerivativeTransactionAmountsView {
    pub shares: Option<ValueFootnoteView>,
    pub price_per_share: Option<ValueFootnoteView>,
    pub total_value: Option<ValueFootnoteView>,
    pub acquired_disposed_code: Option<ValueFootnoteView>,
}

pub struct UnderlyingSecurityView {
    pub title: Option<ValueFootnoteView>,
    pub shares: Option<ValueFootnoteView>,
    pub value: Option<ValueFootnoteView>,
}

pub struct PostTransactionAmountsView {
    pub shares_owned_following_transaction: Option<ValueFootnoteView>,
    pub value_owned_following_transaction: Option<ValueFootnoteView>,
}

pub struct OwnershipNatureView {
    pub direct_or_indirect_ownership: Option<ValueFootnoteView>,
    pub nature_of_ownership: Option<ValueFootnoteView>,
}

pub struct NonDerivativeTransactionView {
    pub security_title: Option<ValueFootnoteView>,
    pub transaction_date: Option<ValueFootnoteView>,
    pub deemed_execution_date: Option<ValueFootnoteView>,
    pub transaction_coding: Option<TransactionCodingView>,
    pub transaction_timeliness: Option<ValueFootnoteView>,
    pub transaction_amounts: Option<TransactionAmountsView>,
    pub post_transaction_amounts: Option<PostTransactionAmountsView>,
    pub ownership_nature: Option<OwnershipNatureView>,
}

pub struct DerivativeTransactionView {
    pub security_title: Option<ValueFootnoteView>,
    pub conversion_or_exercise_price: Option<ValueFootnoteView>,
    pub deemed_execution_date: Option<ValueFootnoteView>,
    pub transaction_coding: Option<TransactionCodingView>,
    pub transaction_timeliness: Option<ValueFootnoteView>,
    pub transaction_amounts: Option<DerivativeTransactionAmountsView>,
    pub exercise_date: Option<ValueFootnoteView>,
    pub expiration_date: Option<ValueFootnoteView>,
    pub underlying_security: Option<UnderlyingSecurityView>,
    pub post_transaction_amounts: Option<PostTransactionAmountsView>,
    pub ownership_nature: Option<OwnershipNatureView>,
}

pub struct NonDerivativeHoldingView {
    pub security_title: Option<ValueFootnoteView>,
    pub transaction_coding: Option<HoldingCodingView>,
    pub post_transaction_amounts: Option<PostTransactionAmountsView>,
    pub ownership_nature: Option<OwnershipNatureView>,
}

pub struct DerivativeHoldingView {
    pub security_title: Option<ValueFootnoteView>,
    pub conversion_or_exercise_price: Option<ValueFootnoteView>,
    pub transaction_coding: Option<HoldingCodingView>,
    pub exercise_date: Option<ValueFootnoteView>,
    pub expiration_date: Option<ValueFootnoteView>,
    pub underlying_security: Option<UnderlyingSecurityView>,
    pub post_transaction_amounts: Option<PostTransactionAmountsView>,
    pub ownership_nature: Option<OwnershipNatureView>,
}

pub struct NonDerivativeTableView {
    pub transactions: Seq<NonDerivativeTransactionView>,
    pub holdings: Seq<NonDerivativeHoldingView>,
}

pub struct DerivativeTableView {
    pub transactions: Seq<DerivativeTransactionView>,
    pub holdings: Seq<DerivativeHoldingView>,
}

pub struct FootnoteView {
    pub id: Option<Seq<char>>,
    pub note: Option<Seq<char>>,
}

pub struct OwnerSignatureView {
    pub name: Option<Seq<char>>,
    pub date: Option<Seq<char>>,
}

pub struct DocumentView {
    pub schema_version: Option<Seq<char>>,
    pub document_type: Option<Seq<char>>,
    pub period_of_report: Option<Seq<char>>,
    pub date_of_original_submission: Option<Seq<char>>,
    pub no_securities_owned: Option<bool>,
    pub not_subject_to_section_16: Option<bool>,
    pub form3_holdings_reported: Option<bool>,
    pub form4_transactions_reported: Option<bool>,
    pub issuer: Option<IssuerView>,
    pub reporting_owner: Option<ReportingOwnerView>,
    pub aff10b5_one: Option<bool>,
    pub non_derivative_table: Option<NonDerivativeTableView>,
    pub derivative_table: Option<DerivativeTableView>,
    pub footnotes: Seq<FootnoteView>,
    pub remarks: Option<Seq<char>>,
    pub owner_signature: Option<OwnerSignatureView>,
}

impl DeepView for ValueFootnote {
    type V = ValueFootnoteView;

    open spec fn deep_view(&self) -> ValueFootnoteView {
        ValueFootnoteView {
            value: self.value.deep_view(),
            footnote_id: self.footnote_id.deep_view(),
        }
    }
}

impl DeepView for Issuer {
    type V = IssuerView;

    open spec fn deep_view(&self) -> IssuerView {
        IssuerView {
            cik: self.cik.deep_view(),
            name: self.name.deep_view(),
            trading_symbol: self.trading_symbol.deep_view(),
        }
    }
}

impl DeepView for ReportingOwnerID {
    type V = ReportingOwnerIDView;

    open spec fn deep_view(&self) -> ReportingOwnerIDView {
        ReportingOwnerIDView {
            cik: self.cik.deep_view(),
            ccc: self.ccc.deep_view(),
            name: self.name.deep_view(),
        }
    }
}

impl DeepView for ReportingOwnerAddress {
    type V = ReportingOwnerAddressView;

    open spec fn deep_view(&self) -> ReportingOwnerAddressView {
        ReportingOwnerAddressView {
            street1: self.street1.deep_view(),
            street2: self.street2.deep_view(),
            city: self.city.deep_view(),
            state: self.state.deep_view(),
            zip_code: self.zip_code.deep_view(),
            state_description: self.state_description.deep_view(),
        }
    }
}

impl DeepView for ReportingOwnerRelationship {
    type V = ReportingOwnerRelationshipView;

    open spec fn deep_view(&self) -> ReportingOwnerRelationshipView {
        ReportingOwnerRelationshipView {
            is_director: self.is_director.deep_view(),
            is_officer: self.is_officer.deep_view(),
            is_ten_percent_owner: self.is_ten_percent_owner.deep_view(),
            is_other: self.is_other.deep_view(),
            officer_title: self.officer_title.deep_view(),
            other_text: self.other_text.deep_view(),
        }
    }
}

impl DeepView for ReportingOwner {
    type V = ReportingOwnerView;

    open spec fn deep_view(&self) -> ReportingOwnerView {
        ReportingOwnerView {
            id: self.id.deep_view(),
            address: self.address.deep_view(),
            relationship: self.relationship.deep_view(),
        }
    }
}

impl DeepView for TransactionCoding {
    type V = TransactionCodingView;

    open spec fn deep_view(&self) -> TransactionCodingView {
        TransactionCodingView {
            form_type: self.form_type.deep_view(),
            transaction_code: self.transaction_code.deep_view(),
            equity_swap_involved: self.equity_swap_involved.deep_view(),
            footnote_id: self.footnote_id.deep_view(),
        }
    }
}

impl DeepView for HoldingCoding {
    type V = HoldingCodingView;

    open spec fn deep_view(&self) -> HoldingCodingView {
        HoldingCodingView {
            form_type: self.form_type.deep_view(),
            footnote_id: self.footnote_id.deep_view(),
        }
    }
}

impl DeepView for TransactionAmounts {
    type V = TransactionAmountsView;

    open spec fn deep_view(&self) -> TransactionAmountsView {
        TransactionAmountsView {
            shares: self.shares.deep_view(),
            price_per_share: self.price_per_share.deep_view(),
            acquired_disposed_code: self.acquired_disposed_code.deep_view(),
        }
    }
}

impl DeepView for DerivativeTransactionAmounts {
    type V = DerivativeTransactionAmountsView;

    open spec fn deep_view(&self) -> DerivativeTransactionAmountsView {
        DerivativeTransactionAmountsView {
            shares: self.shares.deep_view(),
            price_per_share: self.price_per_share.deep_view(),
            total_value: self.total_value.deep_view(),
            acquired_disposed_code: self.acquired_disposed_code.deep_view(),
        }
    }
}

impl DeepView for UnderlyingSecurity {
    type V = UnderlyingSecurityView;

    open spec fn deep_view(&self) -> UnderlyingSecurityView {
        UnderlyingSecurityView {
            title: self.title.deep_view(),
            shares: self.shares.deep_view(),
            value: self.value.deep_view(),
        }
    }
}

impl DeepView for PostTransactionAmounts {
    type V = PostTransactionAmountsView;

    open spec fn deep_view(&self) -> PostTransactionAmountsView {
        PostTransactionAmountsView {
            shares_owned_following_transaction: self.shares_owned_following_transaction.deep_view(),
            value_owned_following_transaction: self.value_owned_following_transaction.deep_view(),
        }
    }
}

impl DeepView for OwnershipNature {
    type V = OwnershipNatureView;

    open spec fn deep_view(&self) -> OwnershipNatureView {
        OwnershipNatureView {
            direct_or_indirect_ownership: self.direct_or_indirect_ownership.deep_view(),
            nature_of_ownership: self.nature_of_ownership.deep_view(),
        }
    }
}

impl DeepView for NonDerivativeTransaction {
    type V = NonDerivativeTransactionView;

    open spec fn deep_view(&self) -> NonDerivativeTransactionView {
        NonDerivativeTransactionView {
            security_title: self.security_title.deep_view(),
            transaction_date: self.transaction_date.deep_view(),
            deemed_execution_date: self.deemed_execution_date.deep_view(),
            transaction_coding: self.transaction_coding.deep_view(),
            transaction_timeliness: self.transaction_timeliness.deep_view(),
            transaction_amounts: self.transaction_amounts.deep_view(),
            post_transaction_amounts: self.post_transaction_amounts.deep_view(),
            ownership_nature: self.ownership_nature.deep_view(),
        }
    }
}

impl DeepView for DerivativeTransaction {
    type V = DerivativeTransactionView;

    open spec fn deep_view(&self) -> DerivativeTransactionView {
        DerivativeTransactionView {
            security_title: self.security_title.deep_view(),
            conversion_or_exercise_price: self.conversion_or_exercise_price.deep_view(),
            deemed_execution_date: self.deemed_execution_date.deep_view(),
            transaction_coding: self.transaction_coding.deep_view(),
            transaction_timeliness: self.transaction_timeliness.deep_view(),
            transaction_amounts: self.transaction_amounts.deep_view(),
            exercise_date: self.exercise_date.deep_view(),
            expiration_date: self.expiration_date.deep_view(),
            underlying_security: self.underlying_security.deep_view(),
            post_transaction_amounts: self.post_transaction_amounts.deep_view(),
            ownership_nature: self.ownership_nature.deep_view(),
        }
    }
}

impl DeepView for NonDerivativeHolding {
    type V = NonDerivativeHoldingView;

    open spec fn deep_view(&self) -> NonDerivativeHoldingView {
        NonDerivativeHoldingView {
            security_title: self.security_title.deep_view(),
            transaction_coding: self.transaction_coding.deep_view(),
            post_transaction_amounts: self.post_transaction_amounts.deep_view(),
            ownership_nature: self.ownership_nature.deep_view(),
        }
    }
}

impl DeepView for DerivativeHolding {
    type V = DerivativeHoldingView;

    open spec fn deep_view(&self) -> DerivativeHoldingView {
        DerivativeHoldingView {
            security_title: self.security_title.deep_view(),
            conversion_or_exercise_price: self.conversion_or_exercise_price.deep_view(),
            transaction_coding: self.transaction_coding.deep_view(),
            exercise_date: self.exercise_date.deep_view(),
            expiration_date: self.expiration_date.deep_view(),
            underlying_security: self.underlying_security.deep_view(),
            post_transaction_amounts: self.post_transaction_amounts.deep_view(),
            ownership_nature: self.ownership_nature.deep_view(),
        }
    }
}

impl DeepView for NonDerivativeTable {
    type V = NonDerivativeTableView;

    open spec fn deep_view(&self) -> NonDerivativeTableView {
        NonDerivativeTableView {
            transactions: self.transactions.deep_view(),
            holdings: self.holdings.deep_view(),
        }
    }
}

impl DeepView for DerivativeTable {
    type V = DerivativeTableView;

    open spec fn deep_view(&self) -> DerivativeTableView {
        DerivativeTableView {
            transactions: self.transactions.deep_view(),
            holdings: self.holdings.deep_view(),
        }
    }
}

impl DeepView for Footnote {
    type V = FootnoteView;

    open spec fn deep_view(&self) -> FootnoteView {
        FootnoteView { id: self.id.deep_view(), note: self.note.deep_view() }
    }
}

impl DeepView for OwnerSignature {
    type V = OwnerSignatureView;

    open spec fn deep_view(&self) -> OwnerSignatureView {
        OwnerSignatureView { name: self.name.deep_view(), date: self.date.deep_view() }
    }
}

impl DeepView for Document {
    type V = DocumentView;

    open spec fn deep_view(&self) -> DocumentView {
        DocumentView {
            schema_version: self.schema_version.deep_view(),
            document_type: self.document_type.deep_view(),
            period_of_report: self.period_of_report.deep_view(),
            date_of_original_submission: self.date_of_original_submission.deep_view(),
            no_securities_owned: self.no_securities_owned.deep_view(),
            not_subject_to_section_16: self.not_subject_to_section_16.deep_view(),
            form3_holdings_reported: self.form3_holdings_reported.deep_view(),
            form4_transactions_reported: self.form4_transactions_reported.deep_view(),
            issuer: self.issuer.deep_view(),
            reporting_owner: self.reporting_owner.deep_view(),
            aff10b5_one: self.aff10b5_one.deep_view(),
            non_derivative_table: self.non_derivative_table.deep_view(),
            derivative_table: self.derivative_table.deep_view(),
            footnotes: self.footnotes.deep_view(),
            remarks: self.remarks.deep_view(),
            owner_signature: self.owner_signature.deep_view(),
        }
    }
}

/// Whether the policy is the strict one.
pub open spec fn is_strict(p: Policy) -> bool {
    p == Policy::Strict
}

/// A field's text: present text is the field's value; an absent field is
/// `None`, unless it is required, which makes it the missing-element error.
pub open spec fn req_text(n: XmlNode, tag: Seq<char>, required: bool) -> Result<
    Option<Seq<char>>,
    ParseErrorView,
> {
    match child_text(n, tag) {
        Some(t) => Ok(Some(t)),
        None => if required {
            Err(ParseErrorView::MissingRequiredElement(tag))
        } else {
            Ok(None)
        },
    }
}

/// Reads a field's text under a requiredness flag, as [`req_text`] says.
fn read_string(n: &XmlNode, tag: &str, required: bool) -> (r: Result<Option<String>, ParseError>)
    ensures
        result_matches(r, req_text(*n, tag@, required)),
{
    match opt_string(n, tag) {
        Some(s) => Ok(Some(s)),
        None => if required {
            Err(missing_element(tag))
        } else {
            Ok(None)
        },
    }
}

/// The leaf wrapper under `c`: the `value` child's text through the
/// coercion chain, and the `footnoteId` child's `id` attribute.
pub open spec fn vf_of(c: XmlNode) -> ValueFootnoteView {
    ValueFootnoteView {
        value: match child_text(c, "value"@) {
            Some(t) => Some(coerced(t)),
            None => None,
        },
        footnote_id: match child_of(c, "footnoteId"@) {
            Some(f) => attr_of(f, "id"@),
            None => None,
        },
    }
}

/// The leaf wrapper the child tagged `tag` carries, where it exists.
pub open spec fn opt_vf(n: XmlNode, tag: Seq<char>) -> Option<ValueFootnoteView> {
    match child_of(n, tag) {
        Some(c) => Some(vf_of(c)),
        None => None,
    }
}

/// Decodes the shared value-plus-footnote leaf under the child tagged
/// `tag`: the nested `value` text through the coercion chain, the nested
/// `footnoteId`'s `id` attribute; either absent is `None`, never an error.
pub fn get_value_footnote(node: &XmlNode, tag: &str) -> (r: Option<ValueFootnote>)
    ensures
        r.deep_view() == opt_vf(*node, tag@),
{
    match find_child(node, tag) {
        Some(c) => {
            let value = match opt_string(c, "value") {
                Some(t) => Some(parse_value(t)),
                None => None,
            };
            let footnote_id = match find_child(c, "footnoteId") {
                Some(f) => find_attr(f, "id"),
                None => None,
            };
            Some(ValueFootnote { value, footnote_id })
        },
        None => None,
    }
}

pub open spec fn spec_transaction_coding(n: XmlNode) -> Option<TransactionCodingView> {
    match child_of(n, "transactionCoding"@) {
        Some(c) => Some(
            TransactionCodingView {
                form_type: child_text(c, "transactionFormType"@),
                transaction_code: child_text(c, "transactionCode"@),
                equity_swap_involved: opt_bool_of(c, "equitySwapInvolved"@),
                footnote_id: child_text(c, "footnoteId"@),
            },
        ),
        None => None,
    }
}

fn parse_transaction_coding(node: &XmlNode) -> (r: Option<TransactionCoding>)
    ensures
        r.deep_view() == spec_transaction_coding(*node),
{
    match find_child(node, "transactionCoding") {
        Some(c) => Some(
            TransactionCoding {
                form_type: opt_string(c, "transactionFormType"),
                transaction_code: opt_string(c, "transactionCode"),
                equity_swap_involved: opt_bool(c, "equitySwapInvolved"),
                footnote_id: opt_string(c, "footnoteId"),
            },
        ),
        None => None,
    }
}

/// A holding's coding sits under the same `transactionCoding` tag, with
/// fewer fields.
pub open spec fn spec_holding_coding(n: XmlNode) -> Option<HoldingCodingView> {
    match child_of(n, "transactionCoding"@) {
        Some(c) => Some(
            HoldingCodingView {
                form_type: child_text(c, "transactionFormType"@),
                footnote_id: child_text(c, "footnoteId"@),
            },
        ),
        None => None,
    }
}

fn parse_holding_coding(node: &XmlNode) -> (r: Option<HoldingCoding>)
    ensures
        r.deep_view() == spec_holding_coding(*node),
{
    match find_child(node, "transactionCoding") {
        Some(c) => Some(
            HoldingCoding {
                form_type: opt_string(c, "transactionFormType"),
                footnote_id: opt_string(c, "footnoteId"),
            },
        ),
        None => None,
    }
}

pub open spec fn spec_transaction_amounts(n: XmlNode) -> Option<TransactionAmountsView> {
    match child_of(n, "transactionAmounts"@) {
        Some(c) => Some(
            TransactionAmountsView {
                shares: opt_vf(c, "transactionShares"@),
                price_per_share: opt_vf(c, "transactionPricePerShare"@),
                acquired_disposed_code: opt_vf(c, "transactionAcquiredDisposedCode"@),
            },
        ),
        None => None,
    }
}

fn parse_transaction_amounts(node: &XmlNode) -> (r: Option<TransactionAmounts>)
    ensures
        r.deep_view() == spec_transaction_amounts(*node),
{
    match find_child(node, "transactionAmounts") {
        Some(c) => Some(
            TransactionAmounts {
                shares: get_value_footnote(c, "transactionShares"),
                price_per_share: get_value_footnote(c, "transactionPricePerShare"),
                acquired_disposed_code: get_value_footnote(c, "transactionAcquiredDisposedCode"),
            },
        ),
        None => None,
    }
}

pub open spec fn spec_derivative_transaction_amounts(n: XmlNode) -> Option<
    DerivativeTransactionAmountsView,
> {
    match child_of(n, "transactionAmounts"@) {
        Some(c) => Some(
            DerivativeTransactionAmountsView {
                shares: opt_vf(c, "transactionShares"@),
                price_per_share: opt_vf(c, "transactionPricePerShare"@),
                total_value: opt_vf(c, "transactionTotalValue"@),
                acquired_disposed_code: opt_vf(c, "transactionAcquiredDisposedCode"@),
            },
        ),
        None => None,
    }
}

fn parse_derivative_transaction_amounts(node: &XmlNode) -> (r: Option<
    DerivativeTransactionAmounts,
>)
    ensures
        r.deep_view() == spec_derivative_transaction_amounts(*node),
{
    match find_child(node, "transactionAmounts") {
        Some(c) => Some(
            DerivativeTransactionAmounts {
                shares: get_value_footnote(c, "transactionShares"),
                price_per_share: get_value_footnote(c, "transactionPricePerShare"),
                total_value: get_value_footnote(c, "transactionTotalValue"),
                acquired_disposed_code: get_value_footnote(c, "transactionAcquiredDisposedCode"),
            },
        ),
        None => None,
    }
}

pub open spec fn spec_underlying_security(n: XmlNode) -> Option<UnderlyingSecurityView> {
    match child_of(n, "underlyingSecurity"@) {
        Some(c) => Some(
            UnderlyingSecurityView {
                title: opt_vf(c, "underlyingSecurityTitle"@),
                shares: opt_vf(c, "underlyingSecurityShares"@),
                value: opt_vf(c, "underlyingSecurityValue"@),
            },
        ),
        None => None,
    }
}

fn parse_underlying_security(node: &XmlNode) -> (r: Option<UnderlyingSecurity>)
    ensures
        r.deep_view() == spec_underlying_security(*node),
{
    match find_child(node, "underlyingSecurity") {
        Some(c) => Some(
            UnderlyingSecurity {
                title: get_value_footnote(c, "underlyingSecurityTitle"),
                shares: get_value_footnote(c, "underlyingSecurityShares"),
                value: get_value_footnote(c, "underlyingSecurityValue"),
            },
        ),
        None => None,
    }
}

pub open spec fn spec_post_transaction_amounts(n: XmlNode) -> Option<PostTransactionAmountsView> {
    match child_of(n, "postTransactionAmounts"@) {
        Some(c) => Some(
            PostTransactionAmountsView {
                shares_owned_following_transaction: opt_vf(c, "sharesOwnedFollowingTransaction"@),
                value_owned_following_transaction: opt_vf(c, "valueOwnedFollowingTransaction"@),
            },
        ),
        None => None,
    }
}

fn parse_post_transaction_amounts(node: &XmlNode) -> (r: Option<PostTransactionAmounts>)
    ensures
        r.deep_view() == spec_post_transaction_amounts(*node),
{
    match find_child(node, "postTransactionAmounts") {
        Some(c) => Some(
            PostTransactionAmounts {
                shares_owned_following_transaction: get_value_footnote(
                    c,
                    "sharesOwnedFollowingTransaction",
                ),
                value_owned_following_transaction: get_value_footnote(
                    c,
                    "valueOwnedFollowingTransaction",
                ),
            },
        ),
        None => None,
    }
}

pub open spec fn spec_ownership_nature(n: XmlNode) -> Option<OwnershipNatureView> {
    match child_of(n, "ownershipNature"@) {
        Some(c) => Some(
            OwnershipNatureView {
                direct_or_indirect_ownership: opt_vf(c, "directOrIndirectOwnership"@),
                nature_of_ownership: opt_vf(c, "natureOfOwnership"@),
            },
        ),
        None => None,
    }
}

fn parse_ownership_nature(node: &XmlNode) -> (r: Option<OwnershipNature>)
    ensures
        r.deep_view() == spec_ownership_nature(*node),
{
    match find_child(node, "ownershipNature") {
        Some(c) => Some(
            OwnershipNature {
                direct_or_indirect_ownership: get_value_footnote(c, "directOrIndirectOwnership"),
                nature_of_ownership: get_value_footnote(c, "natureOfOwnership"),
            },
        ),
        None => None,
    }
}

pub open spec fn spec_non_derivative_transaction(c: XmlNode) -> NonDerivativeTransactionView {
    NonDerivativeTransactionView {
        security_title: opt_vf(c, "securityTitle"@),
        transaction_date: opt_vf(c, "transactionDate"@),
        deemed_execution_date: opt_vf(c, "deemedExecutionDate"@),
        transaction_coding: spec_transaction_coding(c),
        transaction_timeliness: opt_vf(c, "transactionTimeliness"@),
        transaction_amounts: spec_transaction_amounts(c),
        post_transaction_amounts: spec_post_transaction_amounts(c),
        ownership_nature: spec_ownership_nature(c),
    }
}

fn parse_non_derivative_transaction(c: &XmlNode) -> (r: NonDerivativeTransaction)
    ensures
        r.deep_view() == spec_non_derivative_transaction(*c),
{
    NonDerivativeTransaction {
        security_title: get_value_footnote(c, "securityTitle"),
        transaction_date: get_value_footnote(c, "transactionDate"),
        deemed_execution_date: get_value_footnote(c, "deemedExecutionDate"),
        transaction_coding: parse_transaction_coding(c),
        transaction_timeliness: get_value_footnote(c, "transactionTimeliness"),
        transaction_amounts: parse_transaction_amounts(c),
        post_transaction_amounts: parse_post_transaction_amounts(c),
        ownership_nature: parse_ownership_nature(c),
    }
}

pub open spec fn spec_derivative_transaction(c: XmlNode) -> DerivativeTransactionView {
    DerivativeTransactionView {
        security_title: opt_vf(c, "securityTitle"@),
        conversion_or_exercise_price: opt_vf(c, "conversionOrExercisePrice"@),
        deemed_execution_date: opt_vf(c, "deemedExecutionDate"@),
        transaction_coding: spec_transaction_coding(c),
        transaction_timeliness: opt_vf(c, "transactionTimeliness"@),
        transaction_amounts: spec_derivative_transaction_amounts(c),
        exercise_date: opt_vf(c, "exerciseDate"@),
        expiration_date: opt_vf(c, "expirationDate"@),
        underlying_security: spec_underlying_security(c),
        post_transaction_amounts: spec_post_transaction_amounts(c),
        ownership_nature: spec_ownership_nature(c),
    }
}

fn parse_derivative_transaction(c: &XmlNode) -> (r: DerivativeTransaction)
    ensures
        r.deep_view() == spec_derivative_transaction(*c),
{
    DerivativeTransaction {
        security_title: get_value_footnote(c, "securityTitle"),
        conversion_or_exercise_price: get_value_footnote(c, "conversionOrExercisePrice"),
        deemed_execution_date: get_value_footnote(c, "deemedExecutionDate"),
        transaction_coding: parse_transaction_coding(c),
        transaction_timeliness: get_value_footnote(c, "transactionTimeliness"),
        transaction_amounts: parse_derivative_transaction_amounts(c),
        exercise_date: get_value_footnote(c, "exerciseDate"),
        expiration_date: get_value_footnote(c, "expirationDate"),
        underlying_security: parse_underlying_security(c),
        post_transaction_amounts: parse_post_transaction_amounts(c),
        ownership_nature: parse_ownership_nature(c),
    }
}

pub open spec fn spec_non_derivative_holding(c: XmlNode) -> NonDerivativeHoldingView {
    NonDerivativeHoldingView {
        security_title: opt_vf(c, "securityTitle"@),
        transaction_coding: spec_holding_coding(c),
        post_transaction_amounts: spec_post_transaction_amounts(c),
        ownership_nature: spec_ownership_nature(c),
    }
}

fn parse_non_derivative_holding(c: &XmlNode) -> (r: NonDerivativeHolding)
    ensures
        r.deep_view() == spec_non_derivative_holding(*c),
{
    NonDerivativeHolding {
        security_title: get_value_footnote(c, "securityTitle"),
        transaction_coding: parse_holding_coding(c),
        post_transaction_amounts: parse_post_transaction_amounts(c),
        ownership_nature: parse_ownership_nature(c),
    }
}

pub open spec fn spec_derivative_holding(c: XmlNode) -> DerivativeHoldingView {
    DerivativeHoldingView {
        security_title: opt_vf(c, "securityTitle"@),
        conversion_or_exercise_price: opt_vf(c, "conversionOrExercisePrice"@),
        transaction_coding: spec_holding_coding(c),
        exercise_date: opt_vf(c, "exerciseDate"@),
        expiration_date: opt_vf(c, "expirationDate"@),
        underlying_security: spec_underlying_security(c),
        post_transaction_amounts: spec_post_transaction_amounts(c),
        ownership_nature: spec_ownership_nature(c),
    }
}

fn parse_derivative_holding(c: &XmlNode) -> (r: DerivativeHolding)
    ensures
        r.deep_view() == spec_derivative_holding(*c),
{
    DerivativeHolding {
        security_title: get_value_footnote(c, "securityTitle"),
        conversion_or_exercise_price: get_value_footnote(c, "conversionOrExercisePrice"),
        transaction_coding: parse_holding_coding(c),
        exercise_date: get_value_footnote(c, "exerciseDate"),
        expiration_date: get_value_footnote(c, "expirationDate"),
        underlying_security: parse_underlying_security(c),
        post_transaction_amounts: parse_post_transaction_amounts(c),
        ownership_nature: parse_ownership_nature(c),
    }
}

/// The non-derivative transactions among `s` at or after `i`, in document
/// order.
pub open spec fn spec_non_derivative_transactions(s: Seq<XmlNode>, i: int) -> Seq<
    NonDerivativeTransactionView,
>
    decreases s.len() - i,
{
    if i < 0 || i >= s.len() {
        Seq::empty()
    } else {
        let rest = spec_non_derivative_transactions(s, i + 1);
        if s[i].tag@ == "nonDerivativeTransaction"@ {
            seq![spec_non_derivative_transaction(s[i])] + rest
        } else {
            rest
        }
    }
}

pub open spec fn spec_derivative_transactions(s: Seq<XmlNode>, i: int) -> Seq<
    DerivativeTransactionView,
>
    decreases s.len() - i,
{
    if i < 0 || i >= s.len() {
        Seq::empty()
    } else {
        let rest = spec_derivative_transactions(s, i + 1);
        if s[i].tag@ == "derivativeTransaction"@ {
            seq![spec_derivative_transaction(s[i])] + rest
        } else {
            rest
        }
    }
}

pub open spec fn spec_non_derivative_holdings(s: Seq<XmlNode>, i: int) -> Seq<
    NonDerivativeHoldingView,
>
    decreases s.len() - i,
{
    if i < 0 || i >= s.len() {
        Seq::empty()
    } else {
        let rest = spec_non_derivative_holdings(s, i + 1);
        if s[i].tag@ == "nonDerivativeHolding"@ {
            seq![spec_non_derivative_holding(s[i])] + rest
        } else {
            rest
        }
    }
}

pub open spec fn spec_derivative_holdings(s: Seq<XmlNode>, i: int) -> Seq<DerivativeHoldingView>
    decreases s.len() - i,
{
    if i < 0 || i >= s.len() {
        Seq::empty()
    } else {
        let rest = spec_derivative_holdings(s, i + 1);
        if s[i].tag@ == "derivativeHolding"@ {
            seq![spec_derivative_holding(s[i])] + rest
        } else {
            rest
        }
    }
}

fn parse_non_derivative_transactions(node: &XmlNode) -> (r: Vec<NonDerivativeTransaction>)
    ensures
        r.deep_view() == spec_non_derivative_transactions(node.children@, 0),
{
    let mut out: Vec<NonDerivativeTransaction> = Vec::new();
    let n = node.children.len();
    let mut i: usize = 0;
    while i < n
        invariant
            0 <= i <= n,
            n == node.children@.len(),
            spec_non_derivative_transactions(node.children@, 0) == out.deep_view()
                + spec_non_derivative_transactions(node.children@, i as int),
        decreases n - i,
    {
        let ghost s = node.children@;
        let c = &node.children[i];
        if str_eq(c.tag.as_str(), "nonDerivativeTransaction") {
            let ghost pre = out.deep_view();
            let item = parse_non_derivative_transaction(c);
            out.push(item);
            proof {
                assert(out.deep_view() =~~= pre.push(out@.last().deep_view()));
                assert(pre + (seq![out@.last().deep_view()] + spec_non_derivative_transactions(
                    s,
                    i + 1 as int,
                )) =~~= out.deep_view() + spec_non_derivative_transactions(s, i + 1 as int));
            }
        }
        i += 1;
    }
    proof {
        assert(out.deep_view() + spec_non_derivative_transactions(node.children@, n as int)
            =~~= out.deep_view());
    }
    out
}

fn parse_derivative_transactions(node: &XmlNode) -> (r: Vec<DerivativeTransaction>)
    ensures
        r.deep_view() == spec_derivative_transactions(node.children@, 0),
{
    let mut out: Vec<DerivativeTransaction> = Vec::new();
    let n = node.children.len();
    let mut i: usize = 0;
    while i < n
        invariant
            0 <= i <= n,
            n == node.children@.len(),
            spec_derivative_transactions(node.children@, 0) == out.deep_view()
                + spec_derivative_transactions(node.children@, i as int),
        decreases n - i,
    {
        let ghost s = node.children@;
        let c = &node.children[i];
        if str_eq(c.tag.as_str(), "derivativeTransaction") {
            let ghost pre = out.deep_view();
            let item = parse_derivative_transaction(c);
            out.push(item);
            proof {
                assert(out.deep_view() =~~= pre.push(out@.last().deep_view()));
                assert(pre + (seq![out@.last().deep_view()] + spec_derivative_transactions(
                    s,
                    i + 1 as int,
                )) =~~= out.deep_view() + spec_derivative_transactions(s, i + 1 as int));
            }
        }
        i += 1;
    }
    proof {
        assert(out.deep_view() + spec_derivative_transactions(node.children@, n as int)
            =~~= out.deep_view());
    }
    out
}

fn parse_non_derivative_holdings(node: &XmlNode) -> (r: Vec<NonDerivativeHolding>)
    ensures
        r.deep_view() == spec_non_derivative_holdings(node.children@, 0),
{
    let mut out: Vec<NonDerivativeHolding> = Vec::new();
    let n = node.children.len();
    let mut i: usize = 0;
    while i < n
        invariant
            0 <= i <= n,
            n == node.children@.len(),
            spec_non_derivative_holdings(node.children@, 0) == out.deep_view()
                + spec_non_derivative_holdings(node.children@, i as int),
        decreases n - i,
    {
        let ghost s = node.children@;
        let c = &node.children[i];
        if str_eq(c.tag.as_str(), "nonDerivativeHolding") {
            let ghost pre = out.deep_view();
            let item = parse_non_derivative_holding(c);
            out.push(item);
            proof {
                assert(out.deep_view() =~~= pre.push(out@.last().deep_view()));
                assert(pre + (seq![out@.last().deep_view()] + spec_non_derivative_holdings(
                    s,
                    i + 1 as int,
                )) =~~= out.deep_view() + spec_non_derivative_holdings(s, i + 1 as int));
            }
        }
        i += 1;
    }
    proof {
        assert(out.deep_view() + spec_non_derivative_holdings(node.children@, n as int)
            =~~= out.deep_view());
    }
    out
}

fn parse_derivative_holdings(node: &XmlNode) -> (r: Vec<DerivativeHolding>)
    ensures
        r.deep_view() == spec_derivative_holdings(node.children@, 0),
{
    let mut out: Vec<DerivativeHolding> = Vec::new();
    let n = node.children.len();
    let mut i: usize = 0;
    while i < n
        invariant
            0 <= i <= n,
            n == node.children@.len(),
            spec_derivative_holdings(node.children@, 0) == out.deep_view()
                + spec_derivative_holdings(node.children@, i as int),
        decreases n - i,
    {
        let ghost s = node.children@;
        let c = &node.children[i];
        if str_eq(c.tag.as_str(), "derivativeHolding") {
            let ghost pre = out.deep_view();
            let item = parse_derivative_holding(c);
            out.push(item);
            proof {
                assert(out.deep_view() =~~= pre.push(out@.last().deep_view()));
                assert(pre + (seq![out@.last().deep_view()] + spec_derivative_holdings(
                    s,
                    i + 1 as int,
                )) =~~= out.deep_view() + spec_derivative_holdings(s, i + 1 as int));
            }
        }
        i += 1;
    }
    proof {
        assert(out.deep_view() + spec_derivative_holdings(node.children@, n as int)
            =~~= out.deep_view());
    }
    out
}

pub open spec fn spec_non_derivative_table(n: XmlNode) -> Option<NonDerivativeTableView> {
    match child_of(n, "nonDerivativeTable"@) {
        Some(t) => Some(
            NonDerivativeTableView {
                transactions: spec_non_derivative_transactions(t.children@, 0),
                holdings: spec_non_derivative_holdings(t.children@, 0),
            },
        ),
        None => None,
    }
}

fn parse_non_derivative_table(node: &XmlNode) -> (r: Option<NonDerivativeTable>)
    ensures
        r.deep_view() == spec_non_derivative_table(*node),
{
    match find_child(node, "nonDerivativeTable") {
        Some(t) => Some(
            NonDerivativeTable {
                transactions: parse_non_derivative_transactions(t),
                holdings: parse_non_derivative_holdings(t),
            },
        ),
        None => None,
    }
}

pub open spec fn spec_derivative_table(n: XmlNode) -> Option<DerivativeTableView> {
    match child_of(n, "derivativeTable"@) {
        Some(t) => Some(
            DerivativeTableView {
                transactions: spec_derivative_transactions(t.children@, 0),
                holdings: spec_derivative_holdings(t.children@, 0),
            },
        ),
        None => None,
    }
}

fn parse_derivative_table(node: &XmlNode) -> (r: Option<DerivativeTable>)
    ensures
        r.deep_view() == spec_derivative_table(*node),
{
    match find_child(node, "derivativeTable") {
        Some(t) => Some(
            DerivativeTable {
                transactions: parse_derivative_transactions(t),
                holdings: parse_derivative_holdings(t),
            },
        ),
        None => None,
    }
}

/// The footnotes one `footnotes` container holds at or after `i`: each
/// `footnote` child's `id` attribute and text.
pub open spec fn spec_footnote_items(s: Seq<XmlNode>, i: int) -> Seq<FootnoteView>
    decreases s.len() - i,
{
    if i < 0 || i >= s.len() {
        Seq::empty()
    } else {
        let rest = spec_footnote_items(s, i + 1);
        if s[i].tag@ == "footnote"@ {
            seq![FootnoteView { id: attr_of(s[i], "id"@), note: text_of(s[i]) }] + rest
        } else {
            rest
        }
    }
}

/// The footnotes all `footnotes` containers at or after `i` hold, flattened
/// in document order.
pub open spec fn spec_footnotes(s: Seq<XmlNode>, i: int) -> Seq<FootnoteView>
    decreases s.len() - i,
{
    if i < 0 || i >= s.len() {
        Seq::empty()
    } else {
        let rest = spec_footnotes(s, i + 1);
        if s[i].tag@ == "footnotes"@ {
            spec_footnote_items(s[i].children@, 0) + rest
        } else {
            rest
        }
    }
}

fn parse_footnote_items(container: &XmlNode) -> (r: Vec<Footnote>)
    ensures
        r.deep_view() == spec_footnote_items(container.children@, 0),
{
    let mut out: Vec<Footnote> = Vec::new();
    let n = container.children.len();
    let mut i: usize = 0;
    while i < n
        invariant
            0 <= i <= n,
            n == container.children@.len(),
            spec_footnote_items(container.children@, 0) == out.deep_view() + spec_footnote_items(
                container.children@,
                i as int,
            ),
        decreases n - i,
    {
        let ghost s = container.children@;
        let c = &container.children[i];
        if str_eq(c.tag.as_str(), "footnote") {
            let ghost pre = out.deep_view();
            let item = Footnote { id: find_attr(c, "id"), note: text_string(c) };
            out.push(item);
            proof {
                assert(out.deep_view() =~~= pre.push(out@.last().deep_view()));
                assert(pre + (seq![out@.last().deep_view()] + spec_footnote_items(s, i + 1 as int))
                    =~~= out.deep_view() + spec_footnote_items(s, i + 1 as int));
            }
        }
        i += 1;
    }
    proof {
        assert(out.deep_view() + spec_footnote_items(container.children@, n as int)
            =~~= out.deep_view());
    }
    out
}

fn parse_footnotes(node: &XmlNode) -> (r: Vec<Footnote>)
    ensures
        r.deep_view() == spec_footnotes(node.children@, 0),
{
    let mut out: Vec<Footnote> = Vec::new();
    let n = node.children.len();
    let mut i: usize = 0;
    while i < n
        invariant
            0 <= i <= n,
            n == node.children@.len(),
            spec_footnotes(node.children@, 0) == out.deep_view() + spec_footnotes(
                node.children@,
                i as int,
            ),
        decreases n - i,
    {
        let ghost s = node.children@;
        let c = &node.children[i];
        if str_eq(c.tag.as_str(), "footnotes") {
            let ghost pre = out.deep_view();
            let mut items = parse_footnote_items(c);
            let ghost mids = items.deep_view();
            out.append(&mut items);
            proof {
                assert(out.deep_view() =~~= pre + mids);
                assert(pre + (mids + spec_footnotes(s, i + 1 as int)) =~~= (pre + mids)
                    + spec_footnotes(s, i + 1 as int));
            }
        }
        i += 1;
    }
    proof {
        assert(out.deep_view() + spec_footnotes(node.children@, n as int) =~~= out.deep_view());
    }
    out
}

/// The issuer block. Under the strict policy the block and its three fields
/// are required.
pub open spec fn spec_issuer(n: XmlNode, strict: bool) -> Result<Option<IssuerView>, ParseErrorView> {
    match child_of(n, "issuer"@) {
        None => if strict {
            Err(ParseErrorView::MissingRequiredElement("issuer"@))
        } else {
            Ok(None)
        },
        Some(c) => if req_text(c, "issuerCik"@, strict) is Err {
            Err(req_text(c, "issuerCik"@, strict)->Err_0)
        } else if req_text(c, "issuerName"@, strict) is Err {
            Err(req_text(c, "issuerName"@, strict)->Err_0)
        } else if req_text(c, "issuerTradingSymbol"@, strict) is Err {
            Err(req_text(c, "issuerTradingSymbol"@, strict)->Err_0)
        } else {
            Ok(
                Some(
                    IssuerView {
                        cik: req_text(c, "issuerCik"@, strict)->Ok_0,
                        name: req_text(c, "issuerName"@, strict)->Ok_0,
                        trading_symbol: req_text(c, "issuerTradingSymbol"@, strict)->Ok_0,
                    },
                ),
            )
        },
    }
}

fn parse_issuer(node: &XmlNode, strict: bool) -> (r: Result<Option<Issuer>, ParseError>)
    ensures
        result_matches(r, spec_issuer(*node, strict)),
{
    let c = match find_child(node, "issuer") {
        Some(c) => c,
        None => {
            if strict {
                return Err(missing_element("issuer"));
            } else {
                return Ok(None);
            }
        },
    };
    let cik = read_string(c, "issuerCik", strict)?;
    let name = read_string(c, "issuerName", strict)?;
    let trading_symbol = read_string(c, "issuerTradingSymbol", strict)?;
    Ok(Some(Issuer { cik, name, trading_symbol }))
}

/// The reporting-owner id block. Under the strict policy the block and its
/// `rptOwnerCik` are required.
pub open spec fn spec_reporting_owner_id(c: XmlNode, strict: bool) -> Result<
    Option<ReportingOwnerIDView>,
    ParseErrorView,
> {
    match child_of(c, "reportingOwnerId"@) {
        None => if strict {
            Err(ParseErrorView::MissingRequiredElement("reportingOwnerId"@))
        } else {
            Ok(None)
        },
        Some(idn) => if req_text(idn, "rptOwnerCik"@, strict) is Err {
            Err(req_text(idn, "rptOwnerCik"@, strict)->Err_0)
        } else {
            Ok(
                Some(
                    ReportingOwnerIDView {
                        cik: req_text(idn, "rptOwnerCik"@, strict)->Ok_0,
                        ccc: child_text(idn, "rptOwnerCcc"@),
                        name: child_text(idn, "rptOwnerName"@),
                    },
                ),
            )
        },
    }
}

fn parse_reporting_owner_id(node: &XmlNode, strict: bool) -> (r: Result<
    Option<ReportingOwnerID>,
    ParseError,
>)
    ensures
        result_matches(r, spec_reporting_owner_id(*node, strict)),
{
    let idn = match find_child(node, "reportingOwnerId") {
        Some(c) => c,
        None => {
            if strict {
                return Err(missing_element("reportingOwnerId"));
            } else {
                return Ok(None);
            }
        },
    };
    let cik = read_string(idn, "rptOwnerCik", strict)?;
    Ok(
        Some(
            ReportingOwnerID {
                cik,
                ccc: opt_string(idn, "rptOwnerCcc"),
                name: opt_string(idn, "rptOwnerName"),
            },
        ),
    )
}

pub open spec fn spec_reporting_owner_address(c: XmlNode) -> Option<ReportingOwnerAddressView> {
    match child_of(c, "reportingOwnerAddress"@) {
        Some(a) => Some(
            ReportingOwnerAddressView {
                street1: child_text(a, "rptOwnerStreet1"@),
                street2: child_text(a, "rptOwnerStreet2"@),
                city: child_text(a, "rptOwnerCity"@),
                state: child_text(a, "rptOwnerState"@),
                zip_code: child_text(a, "rptOwnerZipCode"@),
                state_description: child_text(a, "rptOwnerStateDescription"@),
            },
        ),
        None => None,
    }
}

fn parse_reporting_owner_address(node: &XmlNode) -> (r: Option<ReportingOwnerAddress>)
    ensures
        r.deep_view() == spec_reporting_owner_address(*node),
{
    match find_child(node, "reportingOwnerAddress") {
        Some(a) => Some(
            ReportingOwnerAddress {
                street1: opt_string(a, "rptOwnerStreet1"),
                street2: opt_string(a, "rptOwnerStreet2"),
                city: opt_string(a, "rptOwnerCity"),
                state: opt_string(a, "rptOwnerState"),
                zip_code: opt_string(a, "rptOwnerZipCode"),
                state_description: opt_string(a, "rptOwnerStateDescription"),
            },
        ),
        None => None,
    }
}

pub open spec fn spec_reporting_owner_relationship(c: XmlNode) -> Option<
    ReportingOwnerRelationshipView,
> {
    match child_of(c, "reportingOwnerRelationship"@) {
        Some(rel) => Some(
            ReportingOwnerRelationshipView {
                is_director: opt_bool_of(rel, "isDirector"@),
                is_officer: opt_bool_of(rel, "isOfficer"@),
                is_ten_percent_owner: opt_bool_of(rel, "isTenPercentOwner"@),
                is_other: opt_bool_of(rel, "isOther"@),
                officer_title: child_text(rel, "officerTitle"@),
                other_text: child_text(rel, "otherText"@),
            },
        ),
        None => None,
    }
}

fn parse_reporting_owner_relationship(node: &XmlNode) -> (r: Option<ReportingOwnerRelationship>)
    ensures
        r.deep_view() == spec_reporting_owner_relationship(*node),
{
    match find_child(node, "reportingOwnerRelationship") {
        Some(rel) => Some(
            ReportingOwnerRelationship {
                is_director: opt_bool(rel, "isDirector"),
                is_officer: opt_bool(rel, "isOfficer"),
                is_ten_percent_owner: opt_bool(rel, "isTenPercentOwner"),
                is_other: opt_bool(rel, "isOther"),
                officer_title: opt_string(rel, "officerTitle"),
                other_text: opt_string(rel, "otherText"),
            },
        ),
        None => None,
    }
}

/// The reporting-owner block. Under the strict policy the block and its id
/// block are required; address and relationship stay optional.
pub open spec fn spec_reporting_owner(n: XmlNode, strict: bool) -> Result<
    Option<ReportingOwnerView>,
    ParseErrorView,
> {
    match child_of(n, "reportingOwner"@) {
        None => if strict {
            Err(ParseErrorView::MissingRequiredElement("reportingOwner"@))
        } else {
            Ok(None)
        },
        Some(c) => if spec_reporting_owner_id(c, strict) is Err {
            Err(spec_reporting_owner_id(c, strict)->Err_0)
        } else {
            Ok(
                Some(
                    ReportingOwnerView {
                        id: spec_reporting_owner_id(c, strict)->Ok_0,
                        address: spec_reporting_owner_address(c),
                        relationship: spec_reporting_owner_relationship(c),
                    },
                ),
            )
        },
    }
}

fn parse_reporting_owner(node: &XmlNode, strict: bool) -> (r: Result<
    Option<ReportingOwner>,
    ParseError,
>)
    ensures
        result_matches(r, spec_reporting_owner(*node, strict)),
{
    let c = match find_child(node, "reportingOwner") {
        Some(c) => c,
        None => {
            if strict {
                return Err(missing_element("reportingOwner"));
            } else {
                return Ok(None);
            }
        },
    };
    let id = parse_reporting_owner_id(c, strict)?;
    Ok(
        Some(
            ReportingOwner {
                id,
                address: parse_reporting_owner_address(c),
                relationship: parse_reporting_owner_relationship(c),
            },
        ),
    )
}

/// The signature block. Under the strict policy the block, the name and the
/// date are required.
pub open spec fn spec_owner_signature(n: XmlNode, strict: bool) -> Result<
    Option<OwnerSignatureView>,
    ParseErrorView,
> {
    match child_of(n, "ownerSignature"@) {
        None => if strict {
            Err(ParseErrorView::MissingRequiredElement("ownerSignature"@))
        } else {
            Ok(None)
        },
        Some(c) => if req_text(c, "signatureName"@, strict) is Err {
            Err(req_text(c, "signatureName"@, strict)->Err_0)
        } else if req_text(c, "signatureDate"@, strict) is Err {
            Err(req_text(c, "signatureDate"@, strict)->Err_0)
        } else {
            Ok(
                Some(
                    OwnerSignatureView {
                        name: req_text(c, "signatureName"@, strict)->Ok_0,
                        date: req_text(c, "signatureDate"@, strict)->Ok_0,
                    },
                ),
            )
        },
    }
}

fn parse_owner_signature(node: &XmlNode, strict: bool) -> (r: Result<
    Option<OwnerSignature>,
    ParseError,
>)
    ensures
        result_matches(r, spec_owner_signature(*node, strict)),
{
    let c = match find_child(node, "ownerSignature") {
        Some(c) => c,
        None => {
            if strict {
                return Err(missing_element("ownerSignature"));
            } else {
                return Ok(None);
            }
        },
    };
    let name = read_string(c, "signatureName", strict)?;
    let date = read_string(c, "signatureDate", strict)?;
    Ok(Some(OwnerSignature { name, date }))
}

/// What an ownership-report tree decodes to under the chosen policy. The
/// strict checks run in document order: `documentType`, `periodOfReport`,
/// then the issuer, reporting-owner and signature blocks; the first failure
/// is the document's single error.
pub open spec fn spec_ownership(n: XmlNode, strict: bool) -> Result<DocumentView, ParseErrorView> {
    if req_text(n, "documentType"@, strict) is Err {
        Err(req_text(n, "documentType"@, strict)->Err_0)
    } else if req_text(n, "periodOfReport"@, strict) is Err {
        Err(req_text(n, "periodOfReport"@, strict)->Err_0)
    } else if spec_issuer(n, strict) is Err {
        Err(spec_issuer(n, strict)->Err_0)
    } else if spec_reporting_owner(n, strict) is Err {
        Err(spec_reporting_owner(n, strict)->Err_0)
    } else if spec_owner_signature(n, strict) is Err {
        Err(spec_owner_signature(n, strict)->Err_0)
    } else {
        Ok(
            DocumentView {
                schema_version: child_text(n, "schemaVersion"@),
                document_type: req_text(n, "documentType"@, strict)->Ok_0,
                period_of_report: req_text(n, "periodOfReport"@, strict)->Ok_0,
                date_of_original_submission: child_text(n, "dateOfOriginalSubmission"@),
                no_securities_owned: opt_bool_of(n, "noSecuritiesOwned"@),
                not_subject_to_section_16: opt_bool_of(n, "notSubjectToSection16"@),
                form3_holdings_reported: opt_bool_of(n, "form3HoldingsReported"@),
                form4_transactions_reported: opt_bool_of(n, "form4TransactionsReported"@),
                issuer: spec_issuer(n, strict)->Ok_0,
                reporting_owner: spec_reporting_owner(n, strict)->Ok_0,
                aff10b5_one: opt_bool_of(n, "aff10b5One"@),
                non_derivative_table: spec_non_derivative_table(n),
                derivative_table: spec_derivative_table(n),
                footnotes: spec_footnotes(n.children@, 0),
                remarks: child_text(n, "remarks"@),
                owner_signature: spec_owner_signature(n, strict)->Ok_0,
            },
        )
    }
}

/// Decodes an ownership report from its element tree under the chosen
/// policy, as [`spec_ownership`] says.
pub fn ownership_from_tree(root: &XmlNode, policy: Policy) -> (r: Result<Document, ParseError>)
    ensures
        result_matches(r, spec_ownership(*root, is_strict(policy))),
{
    let strict = match policy {
        Policy::Strict => true,
        Policy::Lenient => false,
    };
    let document_type = read_string(root, "documentType", strict)?;
    let period_of_report = read_string(root, "periodOfReport", strict)?;
    let issuer = parse_issuer(root, strict)?;
    let reporting_owner = parse_reporting_owner(root, strict)?;
    let owner_signature = parse_owner_signature(root, strict)?;
    Ok(
        Document {
            schema_version: opt_string(root, "schemaVersion"),
            document_type,
            period_of_report,
            date_of_original_submission: opt_string(root, "dateOfOriginalSubmission"),
            no_securities_owned: opt_bool(root, "noSecuritiesOwned"),
            not_subject_to_section_16: opt_bool(root, "notSubjectToSection16"),
            form3_holdings_reported: opt_bool(root, "form3HoldingsReported"),
            form4_transactions_reported: opt_bool(root, "form4TransactionsReported"),
            issuer,
            reporting_owner,
            aff10b5_one: opt_bool(root, "aff10b5One"),
            non_derivative_table: parse_non_derivative_table(root),
            derivative_table: parse_derivative_table(root),
            footnotes: parse_footnotes(root),
            remarks: opt_string(root, "remarks"),
            owner_signature,
        },
    )
}

/// Exactly what [`parse_ownership_form`] returns for `text` under a policy:
/// the reader's outcome, then the tree decode; text that is not well-formed
/// XML is the malformed-XML error carrying the reader's diagnostic, under
/// either policy.
pub open spec fn parse_ownership_post(
    r: Result<Document, ParseError>,
    text: Seq<char>,
    strict: bool,
) -> bool {
    match xml_parse(text) {
        Ok(root) => result_matches(r, spec_ownership(root, strict)),
        Err(d) => r matches Err(ParseError::MalformedXml(m)) && m@ == d,
    }
}

/// Parses an ownership report under the chosen policy, as
/// [`parse_ownership_post`] says.
pub fn parse_ownership_form(xml: &str, policy: Policy) -> (r: Result<Document, ParseError>)
    ensures
        parse_ownership_post(r, xml@, is_strict(policy)),
{
    match parse_tree(xml) {
        Ok(root) => ownership_from_tree(&root, policy),
        Err(msg) => Err(ParseError::MalformedXml(msg)),
    }
}

/// Under the lenient policy every tree decodes: each field of the document
/// is optional, and only text that is not well-formed XML can fail a parse.
pub proof fn lemma_lenient_never_fails(root: XmlNode)
    ensures
        spec_ownership(root, false) is Ok,
{
    assert(req_text(root, "documentType"@, false) is Ok);
    assert(req_text(root, "periodOfReport"@, false) is Ok);
    match child_of(root, "issuer"@) {
        Some(c) => {
            assert(req_text(c, "issuerCik"@, false) is Ok);
            assert(req_text(c, "issuerName"@, false) is Ok);
            assert(req_text(c, "issuerTradingSymbol"@, false) is Ok);
        },
        None => {},
    }
    match child_of(root, "reportingOwner"@) {
        Some(c) => {
            match child_of(c, "reportingOwnerId"@) {
                Some(idn) => {
                    assert(req_text(idn, "rptOwnerCik"@, false) is Ok);
                },
                None => {},
            }
        },
        None => {},
    }
    match child_of(root, "ownerSignature"@) {
        Some(c) => {
            assert(req_text(c, "signatureName"@, false) is Ok);
            assert(req_text(c, "signatureDate"@, false) is Ok);
        },
        None => {},
    }
}

/// Under the strict policy a document without its `issuer` block fails with
/// exactly the missing-element error naming `issuer`, whatever else the
/// document holds, as long as the two fields checked before it are present.
pub proof fn lemma_strict_requires_issuer(root: XmlNode)
    requires
        child_text(root, "documentType"@) is Some,
        child_text(root, "periodOfReport"@) is Some,
        child_of(root, "issuer"@) is None,
    ensures
        spec_ownership(root, true) == Err::<DocumentView, ParseErrorView>(
            ParseErrorView::MissingRequiredElement("issuer"@),
        ),
{
}

/// Parsing is a function of the text and the policy alone: two results of
/// [`parse_ownership_form`] on equal text under one policy are structurally
/// equal — variant, fields, error and diagnostic alike. No global state
/// exists for a call to read or write.
pub proof fn lemma_parse_ownership_deterministic(
    r1: Result<Document, ParseError>,
    r2: Result<Document, ParseError>,
    text: Seq<char>,
    policy: Policy,
)
    requires
        parse_ownership_post(r1, text, is_strict(policy)),
        parse_ownership_post(r2, text, is_strict(policy)),
    ensures
        match (r1, r2) {
            (Ok(a), Ok(b)) => a.deep_view() == b.deep_view(),
            (Err(a), Err(b)) => a.deep_view() == b.deep_view(),
            _ => false,
        },
{
}

} // verus!
