//! What holds of every plan: order, roles, and how failures spread.

use vstd::prelude::*;
use vstd::string::*;
use crate::accounts::{
    is_system_program_name, lemma_failure_stays, planned_account, planned_accounts, role_of,
    AccountRole, BindingView,
};
use crate::emitter::{
    driver_call_text, entry_function_text, lemma_main_failure_stays, planned_entry, planned_main,
    MainPlanView,
};
use crate::error::ErrorView;
use crate::scan::{head_segment, lower_text};
use crate::schema::{first_leaf, AccountRef, Entry, SeedExpr, SingleAccount};
use crate::seeds::{
    account_names, compiled_seeds, resolved_accounts, seed_text, seed_texts, SeedCodeView,
};
use crate::text::byte_list_text;

verus! {

/// The name of the system program is in lower case already.
pub proof fn lemma_system_program_name_is_lower()
    ensures
        lower_text("system_program"@) == "system_program"@,
        is_system_program_name("system_program"@),
{
    reveal_strlit("system_program");
    assert(lower_text("system_program"@) =~= "system_program"@);
}

/// An account whose name is `system_program` in any letter case is the
/// system program, whatever its signer flag, and its record carries no
/// payload.
pub proof fn lemma_system_program_by_name(
    account: SingleAccount,
    types: Map<Seq<char>, Seq<char>>,
)
    requires
        lower_text(account.name@) == "system_program"@,
    ensures
        role_of(account.name@, account.is_signer) == AccountRole::SystemProgram,
        planned_account(AccountRef::Single(account), types) == Ok::<BindingView, ErrorView>(
            BindingView {
                name: account.name@,
                role: AccountRole::SystemProgram,
                payload_type: None,
            },
        ),
{
    lemma_system_program_name_is_lower();
}

/// An account with the signer flag whose name is not the system program's
/// is a signer, and its record carries no payload.
pub proof fn lemma_signer_by_flag(account: SingleAccount, types: Map<Seq<char>, Seq<char>>)
    requires
        account.is_signer,
        !is_system_program_name(account.name@),
    ensures
        role_of(account.name@, account.is_signer) == AccountRole::Signer,
        planned_account(AccountRef::Single(account), types) == Ok::<BindingView, ErrorView>(
            BindingView { name: account.name@, role: AccountRole::Signer, payload_type: None },
        ),
{
}

/// The bindings of an entry stand in the order of its account references,
/// one for each, and bear the names of the accounts that the references
/// resolve to.
pub proof fn lemma_bindings_keep_order(items: Seq<AccountRef>, types: Map<Seq<char>, Seq<char>>)
    requires
        planned_accounts(items, types) is Ok,
    ensures
        planned_accounts(items, types)->Ok_0.len() == items.len(),
        forall|i: int|
            0 <= i < items.len() ==> planned_account(#[trigger] items[i], types) == Ok::<
                BindingView,
                ErrorView,
            >(planned_accounts(items, types)->Ok_0[i]),
        resolved_accounts(items) is Ok,
        resolved_accounts(items)->Ok_0.len() == items.len(),
        forall|i: int|
            0 <= i < items.len() ==> #[trigger] account_names(resolved_accounts(items)->Ok_0)[i]
                == planned_accounts(items, types)->Ok_0[i].name,
    decreases items.len(),
{
    if items.len() > 0 {
        lemma_bindings_keep_order(items.drop_last(), types);
        let before = planned_accounts(items.drop_last(), types)->Ok_0;
        let all = planned_accounts(items, types)->Ok_0;
        assert forall|i: int| 0 <= i < items.len() implies planned_account(
            #[trigger] items[i],
            types,
        ) == Ok::<BindingView, ErrorView>(all[i]) by {
            if i < items.len() - 1 {
                assert(items.drop_last()[i] == items[i]);
                assert(all[i] == before[i]);
            }
        }
        let accounts_before = resolved_accounts(items.drop_last())->Ok_0;
        let accounts = resolved_accounts(items)->Ok_0;
        assert forall|i: int| 0 <= i < items.len() implies #[trigger] account_names(accounts)[i]
            == all[i].name by {
            if i < items.len() - 1 {
                assert(account_names(accounts_before)[i] == before[i].name);
                assert(accounts[i] == accounts_before[i]);
                assert(all[i] == before[i]);
            }
        }
    }
}

/// An account reference without a binding leaves its entry without
/// bindings.
pub proof fn lemma_account_failure_spreads(
    items: Seq<AccountRef>,
    j: int,
    types: Map<Seq<char>, Seq<char>>,
)
    requires
        0 <= j < items.len(),
        planned_account(items[j], types) is Err,
    ensures
        planned_accounts(items, types) is Err,
        planned_accounts(items.take(j), types) is Ok ==> planned_accounts(items, types)
            == Err::<Seq<BindingView>, ErrorView>(planned_account(items[j], types)->Err_0),
{
    assert(items.take(j + 1).drop_last() =~= items.take(j));
    assert(items.take(j + 1).last() == items[j]);
    lemma_failure_stays(items, j + 1, types);
}

/// An entry without a plan leaves the schema without a main module.
pub proof fn lemma_entry_failure_spreads(
    entries: Seq<Entry>,
    i: int,
    types: Map<Seq<char>, Seq<char>>,
)
    requires
        0 <= i < entries.len(),
        planned_entry(entries[i], types) is Err,
    ensures
        planned_main(entries, types) is Err,
        planned_main(entries.take(i), types) is Ok ==> planned_main(entries, types) == Err::<
            MainPlanView,
            ErrorView,
        >(planned_entry(entries[i], types)->Err_0),
{
    assert(entries.take(i + 1).drop_last() =~= entries.take(i));
    assert(entries.take(i + 1).last() == entries[i]);
    lemma_main_failure_stays(entries, i + 1, types);
}

/// A data account whose record type the map lacks makes generation fail:
/// the account has no binding, its entry has no plan, and the schema has no
/// main module. Where nothing before that account fails, the failure names
/// that account.
pub proof fn lemma_unresolved_type_fails(
    entries: Seq<Entry>,
    i: int,
    j: int,
    types: Map<Seq<char>, Seq<char>>,
)
    requires
        0 <= i < entries.len(),
        0 <= j < entries[i].accounts@.len(),
        first_leaf(entries[i].accounts@[j]) is Some,
        role_of(
            first_leaf(entries[i].accounts@[j])->0.name@,
            first_leaf(entries[i].accounts@[j])->0.is_signer,
        ) == AccountRole::Data,
        !types.contains_key(first_leaf(entries[i].accounts@[j])->0.name@),
    ensures
        planned_account(entries[i].accounts@[j], types) == Err::<BindingView, ErrorView>(
            ErrorView::UnresolvedType { account: first_leaf(entries[i].accounts@[j])->0.name@ },
        ),
        planned_accounts(entries[i].accounts@, types) is Err,
        planned_entry(entries[i], types) is Err,
        planned_main(entries, types) is Err,
        planned_main(entries.take(i), types) is Ok && planned_accounts(
            entries[i].accounts@.take(j),
            types,
        ) is Ok ==> planned_main(entries, types) == Err::<MainPlanView, ErrorView>(
            ErrorView::UnresolvedType { account: first_leaf(entries[i].accounts@[j])->0.name@ },
        ),
{
    lemma_account_failure_spreads(entries[i].accounts@, j, types);
    lemma_entry_failure_spreads(entries, i, types);
}

/// The main module has one driver call and one function for each entry of
/// the schema, in the schema's order.
pub proof fn lemma_one_function_per_entry(entries: Seq<Entry>, types: Map<Seq<char>, Seq<char>>)
    requires
        planned_main(entries, types) is Ok,
    ensures
        planned_main(entries, types)->Ok_0.driver_calls.len() == entries.len(),
        planned_main(entries, types)->Ok_0.functions.len() == entries.len(),
        forall|i: int|
            0 <= i < entries.len() ==> {
                &&& planned_main(entries, types)->Ok_0.driver_calls[i] == driver_call_text(
                    (#[trigger] entries[i]).name@,
                )
                &&& planned_entry(entries[i], types) is Ok
                &&& planned_main(entries, types)->Ok_0.functions[i] == entry_function_text(
                    planned_entry(entries[i], types)->Ok_0,
                )
            },
    decreases entries.len(),
{
    if entries.len() > 0 {
        lemma_one_function_per_entry(entries.drop_last(), types);
        let before = planned_main(entries.drop_last(), types)->Ok_0;
        let all = planned_main(entries, types)->Ok_0;
        assert forall|i: int| 0 <= i < entries.len() implies {
            &&& all.driver_calls[i] == driver_call_text((#[trigger] entries[i]).name@)
            &&& planned_entry(entries[i], types) is Ok
            &&& all.functions[i] == entry_function_text(planned_entry(entries[i], types)->Ok_0)
        } by {
            if i < entries.len() - 1 {
                assert(entries.drop_last()[i] == entries[i]);
                assert(all.driver_calls[i] == before.driver_calls[i]);
                assert(all.functions[i] == before.functions[i]);
            }
        }
    }
}

/// Seeds compile one for one and in their order. Bytes become the bytes
/// written out; an argument path becomes the little-endian bytes of the
/// value bound to that argument; an account path becomes the key of the
/// account named before its first dot, which is bound exactly where the
/// entry has an account of that name.
pub proof fn lemma_seeds_compile_in_order(seeds: Seq<SeedExpr>, names: Seq<Seq<char>>)
    ensures
        compiled_seeds(seeds, names).len() == seeds.len(),
        seed_texts(compiled_seeds(seeds, names)).len() == seeds.len(),
        forall|i: int|
            0 <= i < seeds.len() ==> match #[trigger] seeds[i] {
                SeedExpr::Const(bytes) => {
                    &&& compiled_seeds(seeds, names)[i] == SeedCodeView::Literal(bytes@)
                    &&& seed_texts(compiled_seeds(seeds, names))[i] == "&"@ + byte_list_text(
                        bytes@,
                    )
                },
                SeedExpr::ArgRef(path) => {
                    &&& compiled_seeds(seeds, names)[i] == SeedCodeView::ArgBytes(path@)
                    &&& seed_texts(compiled_seeds(seeds, names))[i] == "&"@ + path@
                        + ".to_le_bytes()"@
                },
                SeedExpr::AccountRef(path) => {
                    &&& compiled_seeds(seeds, names)[i] == (SeedCodeView::AccountKey {
                        account: head_segment(path@, '.'),
                        bound: names.contains(head_segment(path@, '.')),
                    })
                    &&& seed_texts(compiled_seeds(seeds, names))[i] == head_segment(path@, '.')
                        + ".key().as_ref()"@
                },
            },
{
    assert forall|i: int| 0 <= i < seeds.len() implies match #[trigger] seeds[i] {
        SeedExpr::Const(bytes) => {
            &&& compiled_seeds(seeds, names)[i] == SeedCodeView::Literal(bytes@)
            &&& seed_texts(compiled_seeds(seeds, names))[i] == "&"@ + byte_list_text(bytes@)
        },
        SeedExpr::ArgRef(path) => {
            &&& compiled_seeds(seeds, names)[i] == SeedCodeView::ArgBytes(path@)
            &&& seed_texts(compiled_seeds(seeds, names))[i] == "&"@ + path@ + ".to_le_bytes()"@
        },
        SeedExpr::AccountRef(path) => {
            &&& compiled_seeds(seeds, names)[i] == (SeedCodeView::AccountKey {
                account: head_segment(path@, '.'),
                bound: names.contains(head_segment(path@, '.')),
            })
            &&& seed_texts(compiled_seeds(seeds, names))[i] == head_segment(path@, '.')
                + ".key().as_ref()"@
        },
    } by {
        assert(seed_texts(compiled_seeds(seeds, names))[i] == seed_text(
            compiled_seeds(seeds, names)[i],
        ));
    }
}

} // verus!
