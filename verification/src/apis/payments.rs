//! Payments: requests, responses and the states a payment moves through.
use vstd::prelude::*;
use crate::apis::auth::Token;
use crate::pollable::IsInTerminalState;
use crate::time::Timestamp;

pub mod api;
pub mod refunds;

verus! {

/// A request to create a payment.
#[derive(Debug, Clone, PartialEq, Eq)]
pub struct CreatePaymentRequest {
    pub amount_in_minor: u64,
    pub currency: Currency,
    pub payment_method: PaymentMethodRequest,
    pub user: CreatePaymentUserRequest,
    pub metadata: Option<Vec<(String, String)>>,
}

/// How a new payment is to be paid.
#[derive(Debug, Clone, PartialEq, Eq)]
pub enum PaymentMethodRequest {
    BankTransfer { provider_selection: ProviderSelectionRequest, beneficiary: Beneficiary },
}

impl PaymentMethodRequest {
    /// The request that asks for the payment method of an existing payment.
    pub fn from(p: PaymentMethod) -> (r: PaymentMethodRequest)
        ensures
            r == Self::spec_from(p),
    {
        match p {
            PaymentMethod::BankTransfer {
                provider_selection,
                beneficiary,
            } => PaymentMethodRequest::BankTransfer {
                provider_selection: ProviderSelectionRequest::from(provider_selection),
                beneficiary,
            },
        }
    }

    /// The payment method request that corresponds to a payment method.
    pub open spec fn spec_from(p: PaymentMethod) -> PaymentMethodRequest {
        match p {
            PaymentMethod::BankTransfer {
                provider_selection,
                beneficiary,
            } => PaymentMethodRequest::BankTransfer {
                provider_selection: ProviderSelectionRequest::spec_from(provider_selection),
                beneficiary,
            },
        }
    }
}

/// How the provider of a new payment is chosen.
#[derive(Debug, Clone, PartialEq, Eq)]
pub enum ProviderSelectionRequest {
    UserSelected { filter: Option<ProviderFilter>, scheme_selection: Option<SchemeSelection> },
    Preselected { provider_id: String, scheme_id: String, remitter: Option<Remitter> },
}

impl ProviderSelectionRequest {
    /// The request that asks for the provider selection of an existing
    /// payment: what the user picked meanwhile is left out.
    pub fn from(p: ProviderSelection) -> (r: ProviderSelectionRequest)
        ensures
            r == Self::spec_from(p),
    {
        match p {
            ProviderSelection::UserSelected {
                filter,
                scheme_selection,
                ..
            } => ProviderSelectionRequest::UserSelected { filter, scheme_selection },
            ProviderSelection::Preselected {
                provider_id,
                scheme_id,
                remitter,
            } => ProviderSelectionRequest::Preselected { provider_id, scheme_id, remitter },
        }
    }

    /// The provider selection request that corresponds to a provider selection.
    pub open spec fn spec_from(p: ProviderSelection) -> ProviderSelectionRequest {
        match p {
            ProviderSelection::UserSelected {
                filter,
                scheme_selection,
                ..
            } => ProviderSelectionRequest::UserSelected { filter, scheme_selection },
            ProviderSelection::Preselected {
                provider_id,
                scheme_id,
                remitter,
            } => ProviderSelectionRequest::Preselected { provider_id, scheme_id, remitter },
        }
    }
}

/// The user on whose behalf a payment is created.
#[derive(Debug, Clone, PartialEq, Eq)]
pub enum CreatePaymentUserRequest {
    ExistingUser { id: String },
    NewUser { name: Option<String>, email: Option<String>, phone: Option<String> },
}

impl CreatePaymentUserRequest {
    /// A new user with the given name and contact details.
    pub fn new_user(name: &str, info: NewUserInfo) -> (r: CreatePaymentUserRequest)
        ensures
            r matches CreatePaymentUserRequest::NewUser { name: n, email, phone } && n matches Some(
                text,
            ) && text@ == name@ && email == info.email && phone == info.phone,
    {
        CreatePaymentUserRequest::NewUser {
            name: Some(name.to_owned()),
            email: info.email,
            phone: info.phone,
        }
    }
}

/// Contact details of a user who is not known to TrueLayer yet.
#[derive(Debug, Clone, PartialEq, Eq)]
pub struct NewUserInfo {
    pub email: Option<String>,
    pub phone: Option<String>,
}

impl NewUserInfo {
    /// Contact details that hold an email address only.
    pub fn with_email(email: &str) -> (r: NewUserInfo)
        ensures
            r.email matches Some(e) && e@ == email@,
            r.phone is None,
    {
        NewUserInfo { email: Some(email.to_owned()), phone: None }
    }

    /// Contact details that hold a phone number only.
    pub fn with_phone(phone: &str) -> (r: NewUserInfo)
        ensures
            r.phone matches Some(p) && p@ == phone@,
            r.email is None,
    {
        NewUserInfo { phone: Some(phone.to_owned()), email: None }
    }

    /// Contact details that hold both an email address and a phone number.
    pub fn with_email_and_phone(email: &str, phone: &str) -> (r: NewUserInfo)
        ensures
            r.email matches Some(e) && e@ == email@,
            r.phone matches Some(p) && p@ == phone@,
    {
        NewUserInfo { email: Some(email.to_owned()), phone: Some(phone.to_owned()) }
    }
}

/// The reply to a request to create a payment.
#[derive(Debug, Clone)]
pub struct CreatePaymentResponse {
    pub id: String,
    pub resource_token: Token,
    pub user: CreatePaymentUserResponse,
    pub status: CreatePaymentStatus,
}

/// The state of a payment right after its creation.
#[derive(Debug, Clone, PartialEq, Eq)]
pub enum CreatePaymentStatus {
    AuthorizationRequired,
    Authorized,
    Failed { failure_stage: FailureStage, failure_reason: String },
}

/// The user that a created payment belongs to.
#[derive(Debug, Clone, PartialEq, Eq)]
pub struct CreatePaymentUserResponse {
    pub id: String,
}

/// A payment as the server reports it.
#[derive(Debug, Clone, PartialEq, Eq)]
pub struct Payment {
    pub id: String,
    pub amount_in_minor: u64,
    pub currency: Currency,
    pub user: User,
    pub payment_method: PaymentMethod,
    pub created_at: Timestamp,
    pub metadata: Option<Vec<(String, String)>>,
    pub status: PaymentStatus,
}

impl Payment {
    /// The payment has reached a state that it does not leave.
    pub open spec fn is_terminal(&self) -> bool {
        self.status is Executed || self.status is Settled || self.status is Failed
    }
}

impl IsInTerminalState for Payment {
    fn is_in_terminal_state(&self) -> (r: bool)
        ensures
            r == self.is_terminal(),
    {
        match self.status {
            PaymentStatus::Executed { .. } => true,
            PaymentStatus::Settled { .. } => true,
            PaymentStatus::Failed { .. } => true,
            _ => false,
        }
    }
}

/// The states of a payment.
#[derive(Debug, Clone, PartialEq, Eq)]
pub enum PaymentStatus {
    AuthorizationRequired,
    Authorizing { authorization_flow: AuthorizationFlow },
    Authorized { authorization_flow: Option<AuthorizationFlow> },
    Executed {
        executed_at: Timestamp,
        authorization_flow: Option<AuthorizationFlow>,
        settlement_risk: Option<SettlementRisk>,
    },
    Settled {
        payment_source: PaymentSource,
        executed_at: Timestamp,
        settled_at: Timestamp,
        authorization_flow: Option<AuthorizationFlow>,
        settlement_risk: Option<SettlementRisk>,
    },
    Failed {
        failed_at: Timestamp,
        failure_stage: FailureStage,
        failure_reason: String,
        authorization_flow: Option<AuthorizationFlow>,
    },
}

/// The currencies a payment can be made in.
#[derive(Debug, Clone, Copy, PartialEq, Eq, Hash, Structural)]
pub enum Currency {
    Eur,
    Gbp,
    Nok,
    Pln,
}

impl Currency {
    /// The ISO 4217 code of the currency.
    pub fn code(&self) -> (r: &'static str)
        ensures
            r@ == self.spec_code(),
    {
        match self {
            Currency::Eur => "EUR",
            Currency::Gbp => "GBP",
            Currency::Nok => "NOK",
            Currency::Pln => "PLN",
        }
    }

    /// The ISO 4217 code of the currency.
    pub open spec fn spec_code(&self) -> Seq<char> {
        match self {
            Currency::Eur => "EUR"@,
            Currency::Gbp => "GBP"@,
            Currency::Nok => "NOK"@,
            Currency::Pln => "PLN"@,
        }
    }
}

/// The stage at which a payment failed.
#[derive(Debug, Clone, Copy, PartialEq, Eq, Hash, Structural)]
pub enum FailureStage {
    AuthorizationRequired,
    Authorizing,
    Authorized,
}

/// The account that a payment was made from.
#[derive(Debug, Clone, PartialEq, Eq)]
pub struct PaymentSource {
    pub id: String,
    pub user_id: Option<String>,
    pub account_identifiers: Vec<AccountIdentifier>,
    pub account_holder_name: Option<String>,
}

/// How a payment is paid.
#[derive(Debug, Clone, PartialEq, Eq)]
pub enum PaymentMethod {
    BankTransfer { provider_selection: ProviderSelection, beneficiary: Beneficiary },
}

/// Who receives a payment.
#[derive(Debug, Clone, PartialEq, Eq)]
pub enum Beneficiary {
    MerchantAccount { merchant_account_id: String, account_holder_name: Option<String> },
    ExternalAccount {
        account_holder_name: String,
        account_identifier: AccountIdentifier,
        reference: String,
    },
}

/// What identifies a bank account.
#[derive(Debug, Clone, PartialEq, Eq)]
pub enum AccountIdentifier {
    SortCodeAccountNumber { sort_code: String, account_number: String },
    Iban { iban: String },
    Bban { bban: String },
    Nrb { nrb: String },
}

/// What identifies an account within a payment scheme.
#[derive(Debug, Clone, PartialEq, Eq)]
pub enum SchemeIdentifier {
    SortCodeAccountNumber { sort_code: String, account_number: String },
}

/// Where the funds of a payment come from.
#[derive(Debug, Clone, PartialEq, Eq)]
pub enum SourceOfFunds {
    ExternalAccount {
        scheme_identifiers: Vec<SchemeIdentifier>,
        external_account_id: Option<String>,
        account_holder_name: Option<String>,
    },
}

/// The kinds of payment method.
#[derive(Debug, Clone, Copy, PartialEq, Eq, Structural)]
pub enum PaymentMethodType {
    BankTransfer,
}

/// The provider side of a payment method.
#[derive(Debug, Clone, Copy, PartialEq, Eq, Structural)]
pub struct PaymentMethodProvider {
    pub kind: PaymentMethodProviderType,
}

/// Who picks the provider of a payment method.
#[derive(Debug, Clone, Copy, PartialEq, Eq, Structural)]
pub enum PaymentMethodProviderType {
    UserSelection,
    Preselection,
}

/// The sender of a payment that reached a merchant account from outside.
#[derive(Debug, Clone, PartialEq, Eq)]
pub struct ExternalPaymentRemitter {
    pub account_holder_name: String,
    pub account_identifier: AccountIdentifier,
    pub reference: String,
}

/// How risky it is to treat an executed payment as settled.
#[derive(Debug, Clone, PartialEq, Eq)]
pub struct SettlementRisk {
    pub category: String,
}

/// How the provider of a payment was or will be chosen.
#[derive(Debug, Clone, PartialEq, Eq)]
pub enum ProviderSelection {
    UserSelected {
        filter: Option<ProviderFilter>,
        scheme_selection: Option<SchemeSelection>,
        provider_id: Option<String>,
        scheme_id: Option<String>,
    },
    Preselected { provider_id: String, scheme_id: String, remitter: Option<Remitter> },
}

/// Which payment schemes may be used.
#[derive(Debug, Clone, Copy, PartialEq, Eq, Structural)]
pub enum SchemeSelection {
    InstantOnly { allow_remitter_fee: Option<bool> },
    InstantPreferred { allow_remitter_fee: Option<bool> },
}

/// The sender of a payment.
#[derive(Debug, Clone, PartialEq, Eq)]
pub struct Remitter {
    pub account_holder_name: Option<String>,
    pub account_identifier: Option<AccountIdentifier>,
}

/// Narrows the providers offered to the user.
#[derive(Debug, Clone, PartialEq, Eq)]
pub struct ProviderFilter {
    pub countries: Option<Vec<CountryCode>>,
    pub release_channel: Option<ReleaseChannel>,
    pub customer_segments: Option<Vec<CustomerSegment>>,
    pub provider_ids: Option<Vec<String>>,
    pub excludes: Option<ProviderFilterExcludes>,
}

/// The countries in which providers are available.
#[derive(Debug, Clone, Copy, PartialEq, Eq, Hash, Structural)]
pub enum CountryCode {
    AT,
    BE,
    DE,
    DK,
    ES,
    FI,
    FR,
    GB,
    IE,
    IT,
    LT,
    NL,
    NO,
    PL,
    PT,
    RO,
}

/// How mature the integration with a provider is.
#[derive(Debug, Clone, Copy, PartialEq, Eq, Hash, Structural)]
pub enum ReleaseChannel {
    GeneralAvailability,
    PublicBeta,
    PrivateBeta,
}

/// The kind of customer a provider serves.
#[derive(Debug, Clone, Copy, PartialEq, Eq, Hash, Structural)]
pub enum CustomerSegment {
    Retail,
    Business,
    Corporate,
}

/// Providers left out by a filter.
#[derive(Debug, Clone, PartialEq, Eq)]
pub struct ProviderFilterExcludes {
    pub provider_ids: Option<Vec<String>>,
}

/// Where the authorization of a payment stands.
#[derive(Debug, Clone, PartialEq, Eq)]
pub struct AuthorizationFlow {
    pub actions: Option<AuthorizationFlowActions>,
    pub configuration: Option<AuthorizationFlowConfiguration>,
}

/// What is to be done next in an authorization flow.
#[derive(Debug, Clone, PartialEq, Eq)]
pub struct AuthorizationFlowActions {
    pub next: AuthorizationFlowNextAction,
}

/// The next action of an authorization flow.
#[derive(Debug, Clone, PartialEq, Eq)]
pub enum AuthorizationFlowNextAction {
    ProviderSelection { providers: Vec<Provider> },
    Redirect { uri: String, metadata: Option<RedirectActionMetadata> },
    Consent { subsequent_action_hint: SubsequentAction },
    Form { inputs: Vec<AdditionalInput> },
    Wait,
}

/// What follows once the user has given consent.
#[derive(Debug, Clone, Copy, PartialEq, Eq, Structural)]
pub enum SubsequentAction {
    Redirect,
    Form,
}

/// A provider offered to the user.
#[derive(Debug, Clone, PartialEq, Eq)]
pub struct Provider {
    pub id: String,
    pub display_name: Option<String>,
    pub icon_uri: Option<String>,
    pub logo_uri: Option<String>,
    pub bg_color: Option<String>,
    pub country_code: Option<CountryCode>,
}

/// What a redirect leads to.
#[derive(Debug, Clone, PartialEq, Eq)]
pub enum RedirectActionMetadata {
    Provider(Provider),
}

/// A further input asked of the user.
#[derive(Debug, Clone, PartialEq, Eq)]
pub enum AdditionalInput {
    Text {
        id: String,
        mandatory: bool,
        display_text: AdditionalInputDisplayText,
        description: Option<AdditionalInputDisplayText>,
        format: AdditionalInputFormat,
        sensitive: bool,
        min_length: i32,
        max_length: i32,
        regexes: Vec<AdditionalInputRegex>,
    },
    Select {
        id: String,
        mandatory: bool,
        display_text: AdditionalInputDisplayText,
        description: Option<AdditionalInputDisplayText>,
        options: Vec<AdditionalInputOption>,
    },
    TextWithImage {
        id: String,
        mandatory: bool,
        display_text: AdditionalInputDisplayText,
        description: Option<AdditionalInputDisplayText>,
        format: AdditionalInputFormat,
        sensitive: bool,
        min_length: i32,
        max_length: i32,
        regexes: Vec<AdditionalInputRegex>,
        image: AdditionalInputImage,
    },
}

/// A text to show, by its translation key and its default wording.
#[derive(Debug, Clone, PartialEq, Eq)]
pub struct AdditionalInputDisplayText {
    pub key: String,
    pub default: String,
}

/// The format expected of a text input.
#[derive(Debug, Clone, Copy, PartialEq, Eq, Structural)]
pub enum AdditionalInputFormat {
    AccountNumber,
    Alphabetical,
    Alphanumerical,
    Any,
    Email,
    Iban,
    Numerical,
    SortCode,
}

/// A pattern that a text input has to match.
#[derive(Debug, Clone, PartialEq, Eq)]
pub struct AdditionalInputRegex {
    pub regex: String,
    pub message: AdditionalInputDisplayText,
}

/// One choice of a select input.
#[derive(Debug, Clone, PartialEq, Eq)]
pub struct AdditionalInputOption {
    pub id: String,
    pub display_text: AdditionalInputDisplayText,
}

/// The image shown with a text input.
#[derive(Debug, Clone, PartialEq, Eq)]
pub enum AdditionalInputImage {
    Uri { uri: String },
    Base64 { data: String, media_type: String },
}

/// What the client supports in an authorization flow.
#[derive(Debug, Clone, PartialEq, Eq)]
pub struct AuthorizationFlowConfiguration {
    pub provider_selection: Option<ProviderSelectionSupported>,
    pub redirect: Option<RedirectSupported>,
    pub consent: Option<ConsentSupported>,
    pub form: Option<FormSupported>,
}

/// The client lets the user pick a provider.
#[derive(Debug, Clone, Copy, PartialEq, Eq, Structural)]
pub struct ProviderSelectionSupported {}

/// The client can follow redirects.
#[derive(Debug, Clone, PartialEq, Eq)]
pub struct RedirectSupported {
    pub return_uri: String,
    pub direct_return_uri: Option<String>,
}

/// The client can collect the user's consent.
#[derive(Debug, Clone, Copy, PartialEq, Eq, Structural)]
pub struct ConsentSupported {}

/// The client can render forms.
#[derive(Debug, Clone, PartialEq, Eq)]
pub struct FormSupported {
    pub input_types: Vec<AdditionalInputType>,
}

/// The kinds of input a form may hold.
#[derive(Debug, Clone, Copy, PartialEq, Eq, Structural)]
pub enum AdditionalInputType {
    Text,
    Select,
    TextWithImage,
}

/// The user a payment belongs to.
#[derive(Debug, Clone, PartialEq, Eq)]
pub struct User {
    pub id: String,
    pub name: Option<String>,
    pub email: Option<String>,
    pub phone: Option<String>,
}

/// A request to start the authorization flow of a payment.
#[derive(Debug, Clone, PartialEq, Eq)]
pub struct StartAuthorizationFlowRequest {
    pub provider_selection: Option<ProviderSelectionSupported>,
    pub redirect: Option<RedirectSupported>,
    pub consent: Option<ConsentSupported>,
    pub form: Option<FormSupported>,
}

/// The reply to a request to start an authorization flow.
#[derive(Debug, Clone, PartialEq, Eq)]
pub struct StartAuthorizationFlowResponse {
    pub authorization_flow: Option<AuthorizationFlow>,
    pub status: AuthorizationFlowResponseStatus,
}

/// The provider that the user picked.
#[derive(Debug, Clone, PartialEq, Eq)]
pub struct SubmitProviderSelectionActionRequest {
    pub provider_id: String,
}

/// The reply to a submitted provider selection.
#[derive(Debug, Clone, PartialEq, Eq)]
pub struct SubmitProviderSelectionActionResponse {
    pub authorization_flow: Option<AuthorizationFlow>,
    pub status: AuthorizationFlowResponseStatus,
}

/// The reply to a submitted consent.
#[derive(Debug, Clone, PartialEq, Eq)]
pub struct SubmitConsentActionResponse {
    pub authorization_flow: Option<AuthorizationFlow>,
    pub status: AuthorizationFlowResponseStatus,
}

/// The values that the user entered into a form, by input id.
#[derive(Debug, Clone, PartialEq, Eq)]
pub struct SubmitFormActionRequest {
    pub inputs: Vec<(String, String)>,
}

/// The reply to a submitted form.
#[derive(Debug, Clone, PartialEq, Eq)]
pub struct SubmitFormActionResponse {
    pub authorization_flow: Option<AuthorizationFlow>,
    pub status: AuthorizationFlowResponseStatus,
}

/// The state of a payment after a step of its authorization flow.
#[derive(Debug, Clone, PartialEq, Eq)]
pub enum AuthorizationFlowResponseStatus {
    Authorizing,
    Failed { failure_stage: FailureStage, failure_reason: String },
}

/// What the provider handed back when it returned the user.
#[derive(Debug, Clone, PartialEq, Eq)]
pub struct SubmitProviderReturnParametersRequest {
    pub query: String,
    pub fragment: String,
}

/// The reply to submitted provider return parameters.
#[derive(Debug, Clone, PartialEq, Eq)]
pub struct SubmitProviderReturnParametersResponse {
    pub resource: SubmitProviderReturnParametersResponseResource,
}

/// The resource that provider return parameters belong to.
#[derive(Debug, Clone, PartialEq, Eq)]
pub enum SubmitProviderReturnParametersResponseResource {
    Payment { payment_id: String },
}

} // verus!
