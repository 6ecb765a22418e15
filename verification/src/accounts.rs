//! The account planner: which mock record stands for each account of an
//! entry, and the three texts that bind it in the harness.

use vstd::prelude::*;
use vstd::string::*;
use crate::error::{ErrorView, HarnessError};
use crate::resolution::TypeResolutionMap;
use crate::scan::{equals_ignoring_case, lower_text};
use crate::schema::{first_leaf, visit_account_item, AccountRef, Entry, SingleAccount};
use crate::text::views;

verus! {

/// The part an account plays in the harness.
#[derive(Debug, Clone, Copy, PartialEq, Eq, Structural)]
pub enum AccountRole {
    SystemProgram,
    Signer,
    Data,
}

/// The mock binding planned for one account.
#[derive(Debug, Clone, PartialEq, Eq)]
pub struct AccountBinding {
    pub name: String,
    pub role: AccountRole,
    /// The record type whose discriminator opens the payload; none where the
    /// record carries no payload.
    pub payload_type: Option<String>,
}

/// A binding with its texts as sequences of characters.
pub struct BindingView {
    pub name: Seq<char>,
    pub role: AccountRole,
    pub payload_type: Option<Seq<char>>,
}

impl View for AccountBinding {
    type V = BindingView;

    open spec fn view(&self) -> BindingView {
        BindingView {
            name: self.name@,
            role: self.role,
            payload_type: match self.payload_type {
                Some(t) => Some(t@),
                None => None,
            },
        }
    }
}

/// The views of a list of bindings.
pub open spec fn binding_views(bindings: Seq<AccountBinding>) -> Seq<BindingView> {
    Seq::new(bindings.len(), |i: int| bindings[i]@)
}

/// Whether `name` is the system program's, whatever the case of its letters.
pub open spec fn is_system_program_name(name: Seq<char>) -> bool {
    lower_text(name) == lower_text("system_program"@)
}

/// The role of an account: the system program by its name, else a signer by
/// its flag, else a data account.
pub open spec fn role_of(name: Seq<char>, is_signer: bool) -> AccountRole {
    if is_system_program_name(name) {
        AccountRole::SystemProgram
    } else if is_signer {
        AccountRole::Signer
    } else {
        AccountRole::Data
    }
}

/// The name by which a failure speaks of a reference.
pub open spec fn label_of(item: AccountRef) -> Seq<char> {
    match item {
        AccountRef::Single(account) => account.name@,
        AccountRef::Composite { group_name, children } => group_name@,
    }
}

/// The binding of one reference, or why there is none: a group without any
/// account is a malformed schema, and a data account needs its record type
/// in `types`.
pub open spec fn planned_account(item: AccountRef, types: Map<Seq<char>, Seq<char>>) -> Result<
    BindingView,
    ErrorView,
> {
    match first_leaf(item) {
        None => Err(ErrorView::SchemaParse { detail: label_of(item) }),
        Some(account) => {
            let role = role_of(account.name@, account.is_signer);
            if role != AccountRole::Data {
                Ok(BindingView { name: account.name@, role: role, payload_type: None })
            } else if types.contains_key(account.name@) {
                Ok(
                    BindingView {
                        name: account.name@,
                        role: role,
                        payload_type: Some(types[account.name@]),
                    },
                )
            } else {
                Err(ErrorView::UnresolvedType { account: account.name@ })
            }
        },
    }
}

/// The bindings of a list of references in their order, or the failure of
/// the first reference that has none.
pub open spec fn planned_accounts(items: Seq<AccountRef>, types: Map<Seq<char>, Seq<char>>) -> Result<
    Seq<BindingView>,
    ErrorView,
>
    decreases items.len(),
{
    if items.len() == 0 {
        Ok(Seq::empty())
    } else {
        match planned_accounts(items.drop_last(), types) {
            Err(e) => Err(e),
            Ok(done) => match planned_account(items.last(), types) {
                Err(e) => Err(e),
                Ok(binding) => Ok(done.push(binding)),
            },
        }
    }
}

/// Classifies an account by its name and signer flag.
pub fn classify(account: &SingleAccount) -> (r: AccountRole)
    ensures
        r == role_of(account.name@, account.is_signer),
{
    if equals_ignoring_case(account.name.as_str(), "system_program") {
        AccountRole::SystemProgram
    } else if account.is_signer {
        AccountRole::Signer
    } else {
        AccountRole::Data
    }
}

/// Plans the binding of one account reference.
pub fn plan_account(item: &AccountRef, types: &TypeResolutionMap) -> (r: Result<
    AccountBinding,
    HarnessError,
>)
    ensures
        match planned_account(*item, types@) {
            Ok(binding) => r matches Ok(b) && b@ == binding,
            Err(e) => r matches Err(f) && f@ == e,
        },
{
    match visit_account_item(item) {
        None => {
            let label = match item {
                AccountRef::Single(account) => account.name.clone(),
                AccountRef::Composite { group_name, children } => group_name.clone(),
            };
            Err(HarnessError::SchemaParse { detail: label })
        },
        Some(account) => {
            let role = classify(account);
            match role {
                AccountRole::Data => match types.get(account.name.as_str()) {
                    Some(t) => Ok(
                        AccountBinding {
                            name: account.name.clone(),
                            role: role,
                            payload_type: Some(t.clone()),
                        },
                    ),
                    None => Err(HarnessError::UnresolvedType { account: account.name.clone() }),
                },
                _ => Ok(
                    AccountBinding { name: account.name.clone(), role: role, payload_type: None },
                ),
            }
        },
    }
}

/// Plans the bindings of the accounts of an entry, in their order.
pub fn plan_accounts(items: &Vec<AccountRef>, types: &TypeResolutionMap) -> (r: Result<
    Vec<AccountBinding>,
    HarnessError,
>)
    ensures
        match planned_accounts(items@, types@) {
            Ok(bindings) => r matches Ok(v) && binding_views(v@) == bindings,
            Err(e) => r matches Err(f) && f@ == e,
        },
{
    let mut out: Vec<AccountBinding> = Vec::new();
    let mut i: usize = 0;
    assert(binding_views(out@) =~= Seq::<BindingView>::empty());
    while i < items.len()
        invariant
            i <= items.len(),
            planned_accounts(items@.take(i as int), types@) == Ok::<Seq<BindingView>, ErrorView>(
                binding_views(out@),
            ),
        decreases items.len() - i,
    {
        proof {
            assert(items@.take(i + 1).drop_last() =~= items@.take(i as int));
            assert(items@.take(i + 1).last() == items@[i as int]);
        }
        match plan_account(&items[i], types) {
            Err(e) => {
                proof {
                    lemma_failure_stays(items@, i + 1, types@);
                }
                return Err(e);
            },
            Ok(binding) => {
                let ghost before = binding_views(out@);
                out.push(binding);
                assert(binding_views(out@) =~= before.push(binding@));
            },
        }
        i += 1;
    }
    assert(items@.take(i as int) =~= items@);
    Ok(out)
}

/// A failure among the first `n` references is the failure of the whole
/// list.
pub proof fn lemma_failure_stays(items: Seq<AccountRef>, n: int, types: Map<Seq<char>, Seq<char>>)
    requires
        0 <= n <= items.len(),
        planned_accounts(items.take(n), types) is Err,
    ensures
        planned_accounts(items, types) == planned_accounts(items.take(n), types),
    decreases items.len() - n,
{
    if n == items.len() {
        assert(items.take(n) =~= items);
    } else {
        assert(items.take(n + 1).drop_last() =~= items.take(n));
        lemma_failure_stays(items, n + 1, types);
    }
}

/// The record type named in a binding; the empty text where there is none.
pub open spec fn payload_text(b: BindingView) -> Seq<char> {
    match b.payload_type {
        Some(t) => t,
        None => Seq::empty(),
    }
}

/// The expression that constructs the mock record of a binding.
pub open spec fn mock_call_text(b: BindingView) -> Seq<char> {
    match b.role {
        AccountRole::SystemProgram => "Box::leak(Box::new(mock_system_program()))"@,
        AccountRole::Signer => "Box::leak(Box::new(mock_signer_account(\""@ + b.name + "\")))"@,
        AccountRole::Data => "Box::leak(Box::new(mock_pda_account::<"@ + payload_text(b)
            + ">(&[b\""@ + b.name + "\"], &PROGRAM_ID, 64)))"@,
    }
}

/// The statement that binds the mock record to the account's name.
pub open spec fn binding_text(b: BindingView) -> Seq<char> {
    "let "@ + b.name + " = "@ + mock_call_text(b) + ";"@
}

/// The typed container that wraps the record of a role.
pub open spec fn container_text(role: AccountRole) -> Seq<char> {
    match role {
        AccountRole::SystemProgram => "Program"@,
        AccountRole::Signer => "Signer"@,
        AccountRole::Data => "Account"@,
    }
}

/// What stands before the account's name where the record is handed to its
/// container.
pub open spec fn borrow_text(role: AccountRole) -> Seq<char> {
    match role {
        AccountRole::SystemProgram => "&*"@,
        _ => ""@,
    }
}

/// The field of the typed accounts struct for a binding.
pub open spec fn field_text(b: BindingView) -> Seq<char> {
    b.name + ": "@ + container_text(b.role) + "::try_from("@ + borrow_text(b.role) + b.name
        + ").unwrap()"@
}

/// The reference to a binding in the flat list of account infos.
pub open spec fn info_text(b: BindingView) -> Seq<char> {
    b.name + ".clone()"@
}

/// The binding statements of a plan, in its order.
pub open spec fn binding_texts(plan: Seq<BindingView>) -> Seq<Seq<char>> {
    Seq::new(plan.len(), |i: int| binding_text(plan[i]))
}

/// The typed fields of a plan, in its order.
pub open spec fn field_texts(plan: Seq<BindingView>) -> Seq<Seq<char>> {
    Seq::new(plan.len(), |i: int| field_text(plan[i]))
}

/// The flat-list references of a plan, in its order.
pub open spec fn info_texts(plan: Seq<BindingView>) -> Seq<Seq<char>> {
    Seq::new(plan.len(), |i: int| info_text(plan[i]))
}

impl AccountBinding {
    /// The expression that constructs the mock record.
    pub fn mock_call(&self) -> (r: String)
        ensures
            r@ == mock_call_text(self@),
    {
        match self.role {
            AccountRole::SystemProgram => String::from_str(
                "Box::leak(Box::new(mock_system_program()))",
            ),
            AccountRole::Signer => {
                let mut out = String::from_str("Box::leak(Box::new(mock_signer_account(\"");
                out.append(self.name.as_str());
                out.append("\")))");
                out
            },
            AccountRole::Data => {
                let mut out = String::from_str("Box::leak(Box::new(mock_pda_account::<");
                match &self.payload_type {
                    Some(t) => {
                        out.append(t.as_str());
                    },
                    None => {
                        assert(out@ + Seq::<char>::empty() =~= out@);
                    },
                }
                out.append(">(&[b\"");
                out.append(self.name.as_str());
                out.append("\"], &PROGRAM_ID, 64)))");
                out
            },
        }
    }

    /// The statement that binds the mock record.
    pub fn binding_statement(&self) -> (r: String)
        ensures
            r@ == binding_text(self@),
    {
        let call = self.mock_call();
        let mut out = String::from_str("let ");
        out.append(self.name.as_str());
        out.append(" = ");
        out.append(call.as_str());
        out.append(";");
        out
    }

    /// The field of the typed accounts struct.
    pub fn typed_field(&self) -> (r: String)
        ensures
            r@ == field_text(self@),
    {
        let mut out = self.name.clone();
        out.append(": ");
        match self.role {
            AccountRole::SystemProgram => {
                out.append("Program");
                out.append("::try_from(");
                out.append("&*");
            },
            AccountRole::Signer => {
                out.append("Signer");
                out.append("::try_from(");
                out.append("");
            },
            AccountRole::Data => {
                out.append("Account");
                out.append("::try_from(");
                out.append("");
            },
        }
        out.append(self.name.as_str());
        out.append(").unwrap()");
        out
    }

    /// The reference in the flat list of account infos.
    pub fn info_reference(&self) -> (r: String)
        ensures
            r@ == info_text(self@),
    {
        let mut out = self.name.clone();
        out.append(".clone()");
        out
    }
}

/// The three texts of each account of an entry, each list in the order of
/// the entry's accounts.
#[derive(Debug, Clone, PartialEq, Eq)]
pub struct InstructionAcountCode {
    pub bindings: Vec<String>,
    pub fields: Vec<String>,
    pub account_infos: Vec<String>,
}

impl InstructionAcountCode {
    /// Whether the three lists are the texts of `plan`, position by position.
    pub open spec fn renders(&self, plan: Seq<BindingView>) -> bool {
        &&& views(self.bindings@) == binding_texts(plan)
        &&& views(self.fields@) == field_texts(plan)
        &&& views(self.account_infos@) == info_texts(plan)
    }

    /// The texts of a plan.
    pub fn from_plan(plan: &Vec<AccountBinding>) -> (r: InstructionAcountCode)
        ensures
            r.renders(binding_views(plan@)),
    {
        let mut bindings: Vec<String> = Vec::new();
        let mut fields: Vec<String> = Vec::new();
        let mut account_infos: Vec<String> = Vec::new();
        let mut i: usize = 0;
        while i < plan.len()
            invariant
                i <= plan.len(),
                bindings@.len() == i,
                fields@.len() == i,
                account_infos@.len() == i,
                forall|k: int| 0 <= k < i ==> bindings@[k]@ == binding_text(plan@[k]@),
                forall|k: int| 0 <= k < i ==> fields@[k]@ == field_text(plan@[k]@),
                forall|k: int| 0 <= k < i ==> account_infos@[k]@ == info_text(plan@[k]@),
            decreases plan.len() - i,
        {
            bindings.push(plan[i].binding_statement());
            fields.push(plan[i].typed_field());
            account_infos.push(plan[i].info_reference());
            i += 1;
        }
        assert(views(bindings@) =~= binding_texts(binding_views(plan@)));
        assert(views(fields@) =~= field_texts(binding_views(plan@)));
        assert(views(account_infos@) =~= info_texts(binding_views(plan@)));
        InstructionAcountCode { bindings, fields, account_infos }
    }

    /// Plans the accounts of an entry and writes their three texts. Fails
    /// where an account has no binding, with the failure of the first such
    /// account.
    pub fn generate_account_code(ix: &Entry, account_map: &TypeResolutionMap) -> (r: Result<
        InstructionAcountCode,
        HarnessError,
    >)
        ensures
            match planned_accounts(ix.accounts@, account_map@) {
                Ok(plan) => r matches Ok(code) && code.renders(plan),
                Err(e) => r matches Err(f) && f@ == e,
            },
    {
        match plan_accounts(&ix.accounts, account_map) {
            Ok(plan) => Ok(InstructionAcountCode::from_plan(&plan)),
            Err(e) => Err(e),
        }
    }
}

} // verus!
