//! Account management on the broker surface, and the view scoped to one
//! sub-account.

use vstd::prelude::*;

use crate::api::{
    assemble, broker_headers, opt_pair, push_pair, spec_assemble, spec_broker_headers,
    AccountEndpoint, BrokerEndpoint, Endpoint, Method, OutgoingRequest, RequestParts,
    RequestPartsV,
};
use crate::json::{member_views, obj_push, opt_member_str, Json, JsonV};
use crate::model::broker::{
    encode_contact, encode_disclosures, encode_identity, encode_trusted_contact,
    encode_agreement_seq, encode_document_seq, spec_enc_agreement_seq, spec_enc_document_seq,
    spec_enc_contact, spec_enc_disclosures, spec_enc_identity, spec_enc_trusted_contact,
    agreement_views, document_views, Account, AccountV, Agreement, AgreementV, Contact, ContactV,
    Disclosures, DisclosuresV, Document, DocumentV, Identity, IdentityV, TrustedContact,
    TrustedContactV,
};
use crate::model::{AccountStatus, Sort};
use crate::json::{strs_jsonv, strs_to_json};
use super::BrokerAuth;

verus! {

/// A view of one sub-account: the broker credential and base URL, the
/// bound account id, and an optionally cached account snapshot.  The
/// cache is filled only by `store_data` and never silently invalidated:
/// every other operation leaves it exactly as it was.
#[derive(Debug, Clone)]
pub struct AccountView {
    id: String,
    auth: BrokerAuth,
    base_url: String,
    data: Option<Account>,
}

/// The model of an `AccountView`.
pub struct AccountViewV {
    pub id: Seq<char>,
    pub auth: super::BrokerAuthV,
    pub base_url: Seq<char>,
    pub data: Option<AccountV>,
}

impl View for AccountView {
    type V = AccountViewV;

    closed spec fn view(&self) -> AccountViewV {
        AccountViewV {
            id: self.id@,
            auth: self.auth@,
            base_url: self.base_url@,
            data: match &self.data {
                Some(a) => Some(a@),
                None => None,
            },
        }
    }
}

impl AccountView {
    /// A fresh view bound to one account id, with nothing cached.
    pub fn new(id: String, auth: BrokerAuth, base_url: String) -> (r: Self)
        ensures
            r@.id == id@,
            r@.auth == auth@,
            r@.base_url == base_url@,
            r@.data is None,
    {
        AccountView { id, auth, base_url, data: None }
    }

    /// The bound account id.
    pub fn id(&self) -> (r: &String)
        ensures
            r@ == self@.id,
    {
        &self.id
    }

    /// The cached account snapshot, if one has been stored.
    pub fn get_data(&self) -> (r: Option<&Account>)
        ensures
            match r {
                Some(a) => self@.data == Some(a@),
                None => self@.data is None,
            },
    {
        self.data.as_ref()
    }

    /// Stores a freshly fetched snapshot, replacing whatever was
    /// cached; nothing else about the view changes.
    pub fn store_data(&mut self, account: Account)
        ensures
            final(self)@.data == Some(account@),
            final(self)@.id == old(self)@.id,
            final(self)@.auth == old(self)@.auth,
            final(self)@.base_url == old(self)@.base_url,
    {
        self.data = Some(account);
    }

    /// Whether the stored credential is small enough for the header
    /// encoder's allocation bound, which `prepare` requires.
    pub fn credential_fits(&self) -> (r: bool)
        ensures
            r == (self@.auth.key.len() <= 250000000),
    {
        self.auth.key.as_str().unicode_len() <= 250000000
    }

    /// Configures the outgoing request of one account-scoped endpoint
    /// against this view's account, with the Basic credential.  The
    /// cached snapshot plays no part and is left untouched.
    pub fn prepare<T: AccountEndpoint>(&self, e: &T) -> (r: OutgoingRequest)
        requires
            self@.auth.key.len() <= 250000000,
        ensures
            r@ == spec_assemble(
                self@.base_url,
                spec_broker_headers(self@.auth.key),
                RequestPartsV {
                    path: e.spec_account_path(self@.id),
                    ..e.spec_parts()
                },
            ),
    {
        let mut parts = e.parts();
        parts.path = e.account_path(self.id.as_str());
        assemble(&self.base_url, broker_headers(&self.auth.key), parts)
    }
}

/// Get one sub-account's details, resolved against the bound account.
#[derive(Debug, Clone)]
pub struct GetAccount;

impl Endpoint for GetAccount {
    open spec fn spec_parts(&self) -> RequestPartsV {
        
        RequestPartsV {
            method: Method::Get,
            path: ""@,
            query: Seq::empty(),
            body: None,
        }
    }

    fn parts(&self) -> (r: RequestParts) {
        let path = String::from_str("");
        let r = RequestParts {
            method: Method::Get,
            path,
            query: Vec::new(),
            body: None,
        };
        proof {
            assert(r@.path =~= self.spec_parts().path);
            assert(r@.query =~= self.spec_parts().query);
        }
        r
    }
}

impl AccountEndpoint for GetAccount {
    open spec fn spec_account_path(&self, id: Seq<char>) -> Seq<char> {
        "/accounts/"@ + id
    }

    fn account_path(&self, id: &str) -> (r: String) {
        let mut p = String::from_str("/accounts/");
        p.append(id);
        proof {
            assert(p@ =~= self.spec_account_path(id@));
        }
        p
    }
}

/// Search the organization's accounts.
#[derive(Debug, Clone)]
pub struct GetAllAccounts {
    pub query: Vec<String>,
    pub created_after: Option<String>,
    pub created_before: Option<String>,
    pub status: Option<AccountStatus>,
    pub sort: Sort,
    pub entities: Vec<String>,
}

/// The model of a `GetAllAccounts`.
pub struct GetAllAccountsV {
    pub query: Seq<Seq<char>>,
    pub created_after: Option<Seq<char>>,
    pub created_before: Option<Seq<char>>,
    pub status: Option<AccountStatus>,
    pub sort: Sort,
    pub entities: Seq<Seq<char>>,
}

impl View for GetAllAccounts {
    type V = GetAllAccountsV;

    open spec fn view(&self) -> GetAllAccountsV {
        GetAllAccountsV {
            query: self.query.deep_view(),
            created_after: match self.created_after { Some(s) => Some(s@), None => None },
            created_before: match self.created_before { Some(s) => Some(s@), None => None },
            status: self.status,
            sort: self.sort,
            entities: self.entities.deep_view(),
        }
    }
}

/// The query parameters this descriptor configures; unset optional
/// fields contribute nothing at all.
pub open spec fn spec_get_all_accounts_query(a: GetAllAccountsV) -> Seq<(Seq<char>, Seq<char>)> {
    seq![("query"@, crate::util::spec_join_space(a.query)), ("sort"@, a.sort.spec_wire()), ("entities"@, crate::util::spec_join_comma(a.entities))] + opt_pair("created_after"@, a.created_after) + opt_pair("created_before"@, a.created_before) + opt_pair("status"@, match a.status { Some(e) => Some(e.spec_wire()), None => None })
}

impl Endpoint for GetAllAccounts {
    open spec fn spec_parts(&self) -> RequestPartsV {
        let a = self@;
        RequestPartsV {
            method: Method::Get,
            path: "/accounts"@,
            query: spec_get_all_accounts_query(a),
            body: None,
        }
    }

    fn parts(&self) -> (r: RequestParts) {
        let path = String::from_str("/accounts");
        let mut q: Vec<(String, String)> = Vec::new();
        push_pair(&mut q, "query", crate::util::join_space(&self.query));
        push_pair(&mut q, "sort", self.sort.wire_name().to_owned());
        push_pair(&mut q, "entities", crate::util::join_comma(&self.entities));
        proof {
            assert(q.deep_view() =~= seq![("query"@, crate::util::spec_join_space(self@.query)), ("sort"@, self@.sort.spec_wire()), ("entities"@, crate::util::spec_join_comma(self@.entities))]);
        }
        let ghost qseg0 = q.deep_view();
        match &self.created_after {
            Some(v) => {
                push_pair(&mut q, "created_after", v.clone());
            },
            None => {},
        }
        proof {
            assert(q.deep_view() =~= qseg0 + opt_pair("created_after"@, self@.created_after));
        }
        let ghost qseg1 = q.deep_view();
        match &self.created_before {
            Some(v) => {
                push_pair(&mut q, "created_before", v.clone());
            },
            None => {},
        }
        proof {
            assert(q.deep_view() =~= qseg1 + opt_pair("created_before"@, self@.created_before));
        }
        let ghost qseg2 = q.deep_view();
        match &self.status {
            Some(v) => {
                push_pair(&mut q, "status", v.wire_name().to_owned());
            },
            None => {},
        }
        proof {
            assert(q.deep_view() =~= qseg2 + opt_pair("status"@, match self@.status { Some(e) => Some(e.spec_wire()), None => None }));
        }
        proof {
            assert(q.deep_view() =~= spec_get_all_accounts_query(self@));
        }
        let r = RequestParts {
            method: Method::Get,
            path,
            query: q,
            body: None,
        };
        proof {
            assert(r@.path =~= self.spec_parts().path);
        }
        r
    }
}

impl BrokerEndpoint for GetAllAccounts {

}

/// Open a new sub-account from its application parts.
#[derive(Debug, Clone)]
pub struct CreateAccount {
    pub contact: Contact,
    pub identity: Identity,
    pub disclosures: Disclosures,
    pub agreements: Vec<Agreement>,
    pub documents: Vec<Document>,
    pub trusted_contact: TrustedContact,
    pub enabled_assets: Vec<String>,
}

/// The model of a `CreateAccount`.
pub struct CreateAccountV {
    pub contact: ContactV,
    pub identity: IdentityV,
    pub disclosures: DisclosuresV,
    pub agreements: Seq<AgreementV>,
    pub documents: Seq<DocumentV>,
    pub trusted_contact: TrustedContactV,
    pub enabled_assets: Seq<Seq<char>>,
}

impl View for CreateAccount {
    type V = CreateAccountV;

    open spec fn view(&self) -> CreateAccountV {
        CreateAccountV {
            contact: self.contact@,
            identity: self.identity@,
            disclosures: self.disclosures@,
            agreements: Seq::new(self.agreements@.len() as nat, |i: int| self.agreements@[i]@),
            documents: Seq::new(self.documents@.len() as nat, |i: int| self.documents@[i]@),
            trusted_contact: self.trusted_contact@,
            enabled_assets: self.enabled_assets.deep_view(),
        }
    }
}

/// The JSON body members this descriptor configures; unset optional
/// fields are omitted entirely, never sent as null.
pub open spec fn spec_create_account_body(a: CreateAccountV) -> Seq<(Seq<char>, JsonV)> {
    seq![("contact"@, spec_enc_contact(a.contact))] + seq![("identity"@, spec_enc_identity(a.identity))] + seq![("disclosures"@, spec_enc_disclosures(a.disclosures))] + seq![("agreements"@, JsonV::Arr(spec_enc_agreement_seq(a.agreements)))] + seq![("documents"@, JsonV::Arr(spec_enc_document_seq(a.documents)))] + seq![("trusted_contact"@, spec_enc_trusted_contact(a.trusted_contact))] + seq![("enabled_assets"@, JsonV::Arr(strs_jsonv(a.enabled_assets)))]
}

impl Endpoint for CreateAccount {
    open spec fn spec_parts(&self) -> RequestPartsV {
        let a = self@;
        RequestPartsV {
            method: Method::Post,
            path: "/accounts"@,
            query: Seq::empty(),
            body: Some(JsonV::Obj(spec_create_account_body(a))),
        }
    }

    #[verifier::rlimit(100)]
    fn parts(&self) -> (r: RequestParts) {
        let path = String::from_str("/accounts");
        let mut bf: Vec<(String, Json)> = Vec::new();
        let ghost bseg0: Seq<(Seq<char>, JsonV)> = Seq::empty();
        obj_push(&mut bf, "contact", encode_contact(&self.contact));
        proof {
            assert(member_views(bf@) =~= bseg0 + seq![("contact"@, spec_enc_contact(self@.contact))]);
        }
        let ghost bseg1 = member_views(bf@);
        obj_push(&mut bf, "identity", encode_identity(&self.identity));
        proof {
            assert(member_views(bf@) =~= bseg1 + seq![("identity"@, spec_enc_identity(self@.identity))]);
        }
        let ghost bseg2 = member_views(bf@);
        obj_push(&mut bf, "disclosures", encode_disclosures(&self.disclosures));
        proof {
            assert(member_views(bf@) =~= bseg2 + seq![("disclosures"@, spec_enc_disclosures(self@.disclosures))]);
        }
        let ghost bseg3 = member_views(bf@);
        obj_push(&mut bf, "agreements", encode_agreement_seq(&self.agreements));
        proof {
            assert(member_views(bf@) =~= bseg3 + seq![("agreements"@, JsonV::Arr(spec_enc_agreement_seq(self@.agreements)))]);
        }
        let ghost bseg4 = member_views(bf@);
        obj_push(&mut bf, "documents", encode_document_seq(&self.documents));
        proof {
            assert(member_views(bf@) =~= bseg4 + seq![("documents"@, JsonV::Arr(spec_enc_document_seq(self@.documents)))]);
        }
        let ghost bseg5 = member_views(bf@);
        obj_push(&mut bf, "trusted_contact", encode_trusted_contact(&self.trusted_contact));
        proof {
            assert(member_views(bf@) =~= bseg5 + seq![("trusted_contact"@, spec_enc_trusted_contact(self@.trusted_contact))]);
        }
        let ghost bseg6 = member_views(bf@);
        obj_push(&mut bf, "enabled_assets", strs_to_json(&self.enabled_assets));
        proof {
            assert(member_views(bf@) =~= bseg6 + seq![("enabled_assets"@, JsonV::Arr(strs_jsonv(self@.enabled_assets)))]);
        }
        let ghost bseg7 = member_views(bf@);
        proof {
            assert(member_views(bf@) =~= spec_create_account_body(self@));
        }
        let r = RequestParts {
            method: Method::Post,
            path,
            query: Vec::new(),
            body: Some(Json::Obj(bf)),
        };
        proof {
            assert(r@.path =~= self.spec_parts().path);
            assert(r@.query =~= self.spec_parts().query);
        }
        r
    }
}

impl BrokerEndpoint for CreateAccount {

}

/// Update parts of one sub-account; unset parts are left untouched.
#[derive(Debug, Clone)]
pub struct UpdateAccount {
    pub contact: Option<Contact>,
    pub identity: Option<Identity>,
    pub disclosures: Option<Disclosures>,
    pub trusted_contact: Option<TrustedContact>,
}

/// The model of a `UpdateAccount`.
pub struct UpdateAccountV {
    pub contact: Option<ContactV>,
    pub identity: Option<IdentityV>,
    pub disclosures: Option<DisclosuresV>,
    pub trusted_contact: Option<TrustedContactV>,
}

impl View for UpdateAccount {
    type V = UpdateAccountV;

    open spec fn view(&self) -> UpdateAccountV {
        UpdateAccountV {
            contact: match self.contact { Some(v) => Some(v@), None => None },
            identity: match self.identity { Some(v) => Some(v@), None => None },
            disclosures: match self.disclosures { Some(v) => Some(v@), None => None },
            trusted_contact: match self.trusted_contact { Some(v) => Some(v@), None => None },
        }
    }
}

/// The JSON body members this descriptor configures; unset optional
/// fields are omitted entirely, never sent as null.
pub open spec fn spec_update_account_body(a: UpdateAccountV) -> Seq<(Seq<char>, JsonV)> {
    (match a.contact { Some(v) => seq![("contact"@, spec_enc_contact(v))], None => Seq::<(Seq<char>, JsonV)>::empty() }) + (match a.identity { Some(v) => seq![("identity"@, spec_enc_identity(v))], None => Seq::<(Seq<char>, JsonV)>::empty() }) + (match a.disclosures { Some(v) => seq![("disclosures"@, spec_enc_disclosures(v))], None => Seq::<(Seq<char>, JsonV)>::empty() }) + (match a.trusted_contact { Some(v) => seq![("trustedContact"@, spec_enc_trusted_contact(v))], None => Seq::<(Seq<char>, JsonV)>::empty() })
}

impl Endpoint for UpdateAccount {
    open spec fn spec_parts(&self) -> RequestPartsV {
        let a = self@;
        RequestPartsV {
            method: Method::Patch,
            path: ""@,
            query: Seq::empty(),
            body: Some(JsonV::Obj(spec_update_account_body(a))),
        }
    }

    #[verifier::rlimit(100)]
    fn parts(&self) -> (r: RequestParts) {
        let path = String::from_str("");
        let mut bf: Vec<(String, Json)> = Vec::new();
        let ghost bseg0: Seq<(Seq<char>, JsonV)> = Seq::empty();
        match &self.contact {
            Some(v) => {
                obj_push(&mut bf, "contact", encode_contact(v));
            },
            None => {},
        }
        proof {
            assert(member_views(bf@) =~= bseg0 + (match self@.contact { Some(v) => seq![("contact"@, spec_enc_contact(v))], None => Seq::<(Seq<char>, JsonV)>::empty() }));
        }
        let ghost bseg1 = member_views(bf@);
        match &self.identity {
            Some(v) => {
                obj_push(&mut bf, "identity", encode_identity(v));
            },
            None => {},
        }
        proof {
            assert(member_views(bf@) =~= bseg1 + (match self@.identity { Some(v) => seq![("identity"@, spec_enc_identity(v))], None => Seq::<(Seq<char>, JsonV)>::empty() }));
        }
        let ghost bseg2 = member_views(bf@);
        match &self.disclosures {
            Some(v) => {
                obj_push(&mut bf, "disclosures", encode_disclosures(v));
            },
            None => {},
        }
        proof {
            assert(member_views(bf@) =~= bseg2 + (match self@.disclosures { Some(v) => seq![("disclosures"@, spec_enc_disclosures(v))], None => Seq::<(Seq<char>, JsonV)>::empty() }));
        }
        let ghost bseg3 = member_views(bf@);
        match &self.trusted_contact {
            Some(v) => {
                obj_push(&mut bf, "trustedContact", encode_trusted_contact(v));
            },
            None => {},
        }
        proof {
            assert(member_views(bf@) =~= bseg3 + (match self@.trusted_contact { Some(v) => seq![("trustedContact"@, spec_enc_trusted_contact(v))], None => Seq::<(Seq<char>, JsonV)>::empty() }));
        }
        let ghost bseg4 = member_views(bf@);
        proof {
            assert(member_views(bf@) =~= spec_update_account_body(self@));
        }
        let r = RequestParts {
            method: Method::Patch,
            path,
            query: Vec::new(),
            body: Some(Json::Obj(bf)),
        };
        proof {
            assert(r@.path =~= self.spec_parts().path);
            assert(r@.query =~= self.spec_parts().query);
        }
        r
    }
}

impl AccountEndpoint for UpdateAccount {
    open spec fn spec_account_path(&self, id: Seq<char>) -> Seq<char> {
        "/accounts/"@ + id
    }

    fn account_path(&self, id: &str) -> (r: String) {
        let mut p = String::from_str("/accounts/");
        p.append(id);
        proof {
            assert(p@ =~= self.spec_account_path(id@));
        }
        p
    }
}

/// A fluent builder for an account application, starting from the
/// required parts and adding the rest one call at a time.
#[derive(Debug, Clone)]
pub struct CreateAccountBuilder(pub CreateAccount);

impl CreateAccountBuilder {
    /// Starts an application from its required contact and identity;
    /// everything else starts empty.
    pub fn new(contact: Contact, identity: Identity) -> (r: Self)
        ensures
            r.0@.contact == contact@,
            r.0@.identity == identity@,
            r.0@.disclosures == (DisclosuresV {
                is_control_person: false,
                is_affiliated_exchange_or_finra: false,
                is_politically_exposed: false,
                immediate_family_exposed: false,
            }),
            r.0@.agreements.len() == 0,
            r.0@.documents.len() == 0,
            r.0@.enabled_assets.len() == 0,
    {
        let r = CreateAccountBuilder(
            CreateAccount {
                contact,
                identity,
                disclosures: Disclosures {
                    is_control_person: false,
                    is_affiliated_exchange_or_finra: false,
                    is_politically_exposed: false,
                    immediate_family_exposed: false,
                },
                agreements: Vec::new(),
                documents: Vec::new(),
                trusted_contact: TrustedContact {
                    given_name: String::new(),
                    family_name: String::new(),
                    email_address: String::new(),
                },
                enabled_assets: Vec::new(),
            },
        );
        proof {
            assert(r.0@.agreements =~= Seq::<AgreementV>::empty());
            assert(r.0@.documents =~= Seq::<DocumentV>::empty());
            assert(r.0@.enabled_assets =~= Seq::<Seq<char>>::empty());
        }
        r
    }

    /// Add a document to this builder.
    pub fn document(self, document: Document) -> (r: Self)
        ensures
            r.0@.documents == self.0@.documents.push(document@),
            r.0@.contact == self.0@.contact,
            r.0@.identity == self.0@.identity,
            r.0@.disclosures == self.0@.disclosures,
            r.0@.agreements == self.0@.agreements,
            r.0@.trusted_contact == self.0@.trusted_contact,
            r.0@.enabled_assets == self.0@.enabled_assets,
    {
        let CreateAccountBuilder(mut inner) = self;
        let ghost before = inner@.documents;
        let ghost dv = document;
        inner.documents.push(document);
        proof {
            assert(document_views(inner.documents@) =~= before.push(dv@));
        }
        CreateAccountBuilder(inner)
    }

    /// The finished descriptor.
    pub fn build(self) -> (r: CreateAccount)
        ensures
            r@ == self.0@,
    {
        self.0
    }
}

} // verus!
