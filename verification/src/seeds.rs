//! The seed compiler: the byte-producing expressions of each derived
//! address, and the bump field of each account that has one.

use vstd::prelude::*;
use vstd::string::*;
use crate::accounts::label_of;
use crate::error::{ErrorView, HarnessError};
use crate::scan::{first_segment, head_segment};
use crate::schema::{first_leaf, visit_account_item, AccountRef, Entry, SeedExpr, SingleAccount};
use crate::text::{byte_list, byte_list_text, equal_text, join, join_text, views};

verus! {

/// A compiled seed: an expression that yields bytes.
#[derive(Debug, Clone, PartialEq, Eq)]
pub enum SeedCode {
    /// The bytes, written out.
    Literal(Vec<u8>),
    /// The little-endian bytes of the value bound to an argument.
    ArgBytes(String),
    /// The key of the account bound under `account`. `bound` says whether the
    /// entry has such an account; where it has none the expression dangles.
    AccountKey { account: String, bound: bool },
}

/// A compiled seed with its texts as sequences of characters.
pub enum SeedCodeView {
    Literal(Seq<u8>),
    ArgBytes(Seq<char>),
    AccountKey { account: Seq<char>, bound: bool },
}

impl View for SeedCode {
    type V = SeedCodeView;

    open spec fn view(&self) -> SeedCodeView {
        match *self {
            SeedCode::Literal(bytes) => SeedCodeView::Literal(bytes@),
            SeedCode::ArgBytes(path) => SeedCodeView::ArgBytes(path@),
            SeedCode::AccountKey { account, bound } => SeedCodeView::AccountKey {
                account: account@,
                bound: bound,
            },
        }
    }
}

/// The bump field planned for one account with a derived address.
#[derive(Debug, Clone, PartialEq, Eq)]
pub struct BumpBinding {
    pub account: String,
    pub seeds: Vec<SeedCode>,
}

/// A bump field with its texts as sequences of characters.
pub struct BumpView {
    pub account: Seq<char>,
    pub seeds: Seq<SeedCodeView>,
}

/// The views of a list of compiled seeds.
pub open spec fn seed_views(seeds: Seq<SeedCode>) -> Seq<SeedCodeView> {
    Seq::new(seeds.len(), |i: int| seeds[i]@)
}

impl View for BumpBinding {
    type V = BumpView;

    open spec fn view(&self) -> BumpView {
        BumpView { account: self.account@, seeds: seed_views(self.seeds@) }
    }
}

/// The views of a list of bump fields.
pub open spec fn bump_views(bumps: Seq<BumpBinding>) -> Seq<BumpView> {
    Seq::new(bumps.len(), |i: int| bumps[i]@)
}

/// The accounts that the references of an entry resolve to, in their order;
/// a group without any account is a malformed schema.
pub open spec fn resolved_accounts(items: Seq<AccountRef>) -> Result<Seq<SingleAccount>, ErrorView>
    decreases items.len(),
{
    if items.len() == 0 {
        Ok(Seq::empty())
    } else {
        match resolved_accounts(items.drop_last()) {
            Err(e) => Err(e),
            Ok(done) => match first_leaf(items.last()) {
                None => Err(ErrorView::SchemaParse { detail: label_of(items.last()) }),
                Some(account) => Ok(done.push(account)),
            },
        }
    }
}

/// The names of a list of accounts.
pub open spec fn account_names(accounts: Seq<SingleAccount>) -> Seq<Seq<char>> {
    Seq::new(accounts.len(), |i: int| accounts[i].name@)
}

/// One seed, compiled. An account path stands for the account named before
/// its first dot, which is bound where `names` holds that name.
pub open spec fn compiled_seed(seed: SeedExpr, names: Seq<Seq<char>>) -> SeedCodeView {
    match seed {
        SeedExpr::Const(bytes) => SeedCodeView::Literal(bytes@),
        SeedExpr::ArgRef(path) => SeedCodeView::ArgBytes(path@),
        SeedExpr::AccountRef(path) => SeedCodeView::AccountKey {
            account: head_segment(path@, '.'),
            bound: names.contains(head_segment(path@, '.')),
        },
    }
}

/// The seeds of one address, compiled one for one and in their order.
pub open spec fn compiled_seeds(seeds: Seq<SeedExpr>, names: Seq<Seq<char>>) -> Seq<SeedCodeView> {
    Seq::new(seeds.len(), |i: int| compiled_seed(seeds[i], names))
}

/// The bump fields of a list of accounts: one for each account that has a
/// derived address, in the order of the accounts.
pub open spec fn planned_bumps(accounts: Seq<SingleAccount>, names: Seq<Seq<char>>) -> Seq<BumpView>
    decreases accounts.len(),
{
    if accounts.len() == 0 {
        Seq::empty()
    } else {
        let done = planned_bumps(accounts.drop_last(), names);
        match accounts.last().pda {
            Some(pda) => done.push(
                BumpView { account: accounts.last().name@, seeds: compiled_seeds(pda.seeds@, names) },
            ),
            None => done,
        }
    }
}

/// The expression of a compiled seed: the bytes written out and borrowed;
/// the little-endian bytes of the value bound to the argument; the key of
/// the account bound under the name.
pub open spec fn seed_text(code: SeedCodeView) -> Seq<char> {
    match code {
        SeedCodeView::Literal(bytes) => "&"@ + byte_list_text(bytes),
        SeedCodeView::ArgBytes(path) => "&"@ + path + ".to_le_bytes()"@,
        SeedCodeView::AccountKey { account, bound } => account + ".key().as_ref()"@,
    }
}

/// The expressions of a list of compiled seeds, in its order.
pub open spec fn seed_texts(codes: Seq<SeedCodeView>) -> Seq<Seq<char>> {
    Seq::new(codes.len(), |i: int| seed_text(codes[i]))
}

/// The bump field of an account: the bump of the address derived from the
/// seed expressions, in their order, and the program identifier.
pub open spec fn bump_field_text(bump: BumpView) -> Seq<char> {
    bump.account + ": Pubkey::find_program_address(&["@ + join_text(seed_texts(bump.seeds), ", "@)
        + "], &PROGRAM_ID).1"@
}

/// The texts of a list of bump fields, in its order.
pub open spec fn bump_field_texts(bumps: Seq<BumpView>) -> Seq<Seq<char>> {
    Seq::new(bumps.len(), |i: int| bump_field_text(bumps[i]))
}

/// The accounts behind a list of references.
pub open spec fn derefs(accounts: Seq<&SingleAccount>) -> Seq<SingleAccount> {
    Seq::new(accounts.len(), |i: int| *accounts[i])
}

/// Resolves every reference of an entry to its account.
pub fn resolve_accounts<'a>(items: &'a Vec<AccountRef>) -> (r: Result<
    Vec<&'a SingleAccount>,
    HarnessError,
>)
    ensures
        match resolved_accounts(items@) {
            Ok(accounts) => r matches Ok(v) && derefs(v@) == accounts,
            Err(e) => r matches Err(f) && f@ == e,
        },
{
    let mut out: Vec<&'a SingleAccount> = Vec::new();
    let mut i: usize = 0;
    assert(derefs(out@) =~= Seq::<SingleAccount>::empty());
    while i < items.len()
        invariant
            i <= items.len(),
            resolved_accounts(items@.take(i as int)) == Ok::<Seq<SingleAccount>, ErrorView>(
                derefs(out@),
            ),
        decreases items.len() - i,
    {
        proof {
            assert(items@.take(i + 1).drop_last() =~= items@.take(i as int));
            assert(items@.take(i + 1).last() == items@[i as int]);
        }
        match visit_account_item(&items[i]) {
            None => {
                proof {
                    lemma_unresolved_stays(items@, i + 1);
                }
                let label = match &items[i] {
                    AccountRef::Single(account) => account.name.clone(),
                    AccountRef::Composite { group_name, children } => group_name.clone(),
                };
                return Err(HarnessError::SchemaParse { detail: label });
            },
            Some(account) => {
                let ghost before = derefs(out@);
                out.push(account);
                assert(derefs(out@) =~= before.push(*account));
            },
        }
        i += 1;
    }
    assert(items@.take(i as int) =~= items@);
    Ok(out)
}

/// A failure among the first `n` references is the failure of the whole
/// list.
pub proof fn lemma_unresolved_stays(items: Seq<AccountRef>, n: int)
    requires
        0 <= n <= items.len(),
        resolved_accounts(items.take(n)) is Err,
    ensures
        resolved_accounts(items) == resolved_accounts(items.take(n)),
    decreases items.len() - n,
{
    if n == items.len() {
        assert(items.take(n) =~= items);
    } else {
        assert(items.take(n + 1).drop_last() =~= items.take(n));
        lemma_unresolved_stays(items, n + 1);
    }
}

/// Whether one of `accounts` bears `name`.
pub fn is_bound(accounts: &Vec<&SingleAccount>, name: &str) -> (r: bool)
    ensures
        r == account_names(derefs(accounts@)).contains(name@),
{
    let ghost names = account_names(derefs(accounts@));
    let mut i: usize = 0;
    while i < accounts.len()
        invariant
            i <= accounts.len(),
            names == account_names(derefs(accounts@)),
            forall|k: int| 0 <= k < i ==> names[k] != name@,
        decreases accounts.len() - i,
    {
        if equal_text(accounts[i].name.as_str(), name) {
            assert(names[i as int] == name@);
            return true;
        }
        i += 1;
    }
    false
}

/// Compiles one seed against the accounts of its entry.
pub fn compile_seed(seed: &SeedExpr, accounts: &Vec<&SingleAccount>) -> (r: SeedCode)
    ensures
        r@ == compiled_seed(*seed, account_names(derefs(accounts@))),
{
    match seed {
        SeedExpr::Const(bytes) => SeedCode::Literal(bytes.clone()),
        SeedExpr::ArgRef(path) => SeedCode::ArgBytes(path.clone()),
        SeedExpr::AccountRef(path) => {
            let account = first_segment(path.as_str(), '.');
            let bound = is_bound(accounts, account.as_str());
            SeedCode::AccountKey { account, bound }
        },
    }
}

/// Compiles the seeds of one address, one for one and in their order.
pub fn compile_seeds(seeds: &Vec<SeedExpr>, accounts: &Vec<&SingleAccount>) -> (r: Vec<SeedCode>)
    ensures
        seed_views(r@) == compiled_seeds(seeds@, account_names(derefs(accounts@))),
{
    let mut out: Vec<SeedCode> = Vec::new();
    let mut i: usize = 0;
    while i < seeds.len()
        invariant
            i <= seeds.len(),
            out@.len() == i,
            forall|k: int|
                0 <= k < i ==> out@[k]@ == compiled_seed(
                    seeds@[k],
                    account_names(derefs(accounts@)),
                ),
        decreases seeds.len() - i,
    {
        out.push(compile_seed(&seeds[i], accounts));
        i += 1;
    }
    assert(seed_views(out@) =~= compiled_seeds(seeds@, account_names(derefs(accounts@))));
    out
}

/// Plans the bump field of every account that has a derived address.
pub fn plan_bumps(accounts: &Vec<&SingleAccount>) -> (r: Vec<BumpBinding>)
    ensures
        bump_views(r@) == planned_bumps(derefs(accounts@), account_names(derefs(accounts@))),
{
    let ghost all = derefs(accounts@);
    let ghost names = account_names(all);
    let mut out: Vec<BumpBinding> = Vec::new();
    let mut i: usize = 0;
    assert(bump_views(out@) =~= Seq::<BumpView>::empty());
    while i < accounts.len()
        invariant
            i <= accounts.len(),
            all == derefs(accounts@),
            names == account_names(all),
            bump_views(out@) == planned_bumps(all.take(i as int), names),
        decreases accounts.len() - i,
    {
        proof {
            assert(all.take(i + 1).drop_last() =~= all.take(i as int));
            assert(all.take(i + 1).last() == *accounts@[i as int]);
        }
        let account = accounts[i];
        match &account.pda {
            Some(pda) => {
                let ghost before = bump_views(out@);
                let bump = BumpBinding {
                    account: account.name.clone(),
                    seeds: compile_seeds(&pda.seeds, accounts),
                };
                out.push(bump);
                assert(bump_views(out@) =~= before.push(bump@));
            },
            None => {},
        }
        i += 1;
    }
    assert(all.take(i as int) =~= all);
    out
}

impl SeedCode {
    /// The expression of this seed.
    pub fn expression(&self) -> (r: String)
        ensures
            r@ == seed_text(self@),
    {
        match self {
            SeedCode::Literal(bytes) => {
                let mut out = String::from_str("&");
                let list = byte_list(bytes);
                out.append(list.as_str());
                out
            },
            SeedCode::ArgBytes(path) => {
                let mut out = String::from_str("&");
                out.append(path.as_str());
                out.append(".to_le_bytes()");
                out
            },
            SeedCode::AccountKey { account, bound } => {
                let mut out = account.clone();
                out.append(".key().as_ref()");
                out
            },
        }
    }
}

impl BumpBinding {
    /// The bump field of this account.
    pub fn field(&self) -> (r: String)
        ensures
            r@ == bump_field_text(self@),
    {
        let mut parts: Vec<String> = Vec::new();
        let mut i: usize = 0;
        while i < self.seeds.len()
            invariant
                i <= self.seeds.len(),
                parts@.len() == i,
                forall|k: int| 0 <= k < i ==> parts@[k]@ == seed_text(self.seeds@[k]@),
            decreases self.seeds.len() - i,
        {
            parts.push(self.seeds[i].expression());
            i += 1;
        }
        assert(views(parts@) =~= seed_texts(seed_views(self.seeds@)));
        let mut out = self.account.clone();
        out.append(": Pubkey::find_program_address(&[");
        let list = join(&parts, ", ");
        out.append(list.as_str());
        out.append("], &PROGRAM_ID).1");
        out
    }
}

/// The bump fields of an entry, in the order of its accounts.
#[derive(Debug, Clone, PartialEq, Eq)]
pub struct InstructionBumpsCode {
    pub bump_fields: Vec<String>,
}

impl InstructionBumpsCode {
    /// The texts of planned bump fields.
    pub fn from_plan(plan: &Vec<BumpBinding>) -> (r: InstructionBumpsCode)
        ensures
            views(r.bump_fields@) == bump_field_texts(bump_views(plan@)),
    {
        let mut bump_fields: Vec<String> = Vec::new();
        let mut i: usize = 0;
        while i < plan.len()
            invariant
                i <= plan.len(),
                bump_fields@.len() == i,
                forall|k: int| 0 <= k < i ==> bump_fields@[k]@ == bump_field_text(plan@[k]@),
            decreases plan.len() - i,
        {
            bump_fields.push(plan[i].field());
            i += 1;
        }
        assert(views(bump_fields@) =~= bump_field_texts(bump_views(plan@)));
        InstructionBumpsCode { bump_fields }
    }

    /// Compiles the seeds of every account of `ix` that has a derived
    /// address and writes its bump field. Fails only where a group of
    /// accounts holds no account.
    pub fn generate_bumps_code(ix: &Entry) -> (r: Result<InstructionBumpsCode, HarnessError>)
        ensures
            match resolved_accounts(ix.accounts@) {
                Ok(accounts) => r matches Ok(code) && views(code.bump_fields@) == bump_field_texts(
                    planned_bumps(accounts, account_names(accounts)),
                ),
                Err(e) => r matches Err(f) && f@ == e,
            },
    {
        match resolve_accounts(&ix.accounts) {
            Ok(accounts) => {
                let plan = plan_bumps(&accounts);
                Ok(InstructionBumpsCode::from_plan(&plan))
            },
            Err(e) => Err(e),
        }
    }
}

} // verus!
