//! The interface model of a program: its entries with their account
//! references and arguments, in the order in which the schema lists them.

use vstd::prelude::*;

verus! {

/// One seed of a program-derived address.
#[derive(Debug, Clone, PartialEq, Eq)]
pub enum SeedExpr {
    /// The bytes themselves.
    Const(Vec<u8>),
    /// The path of an argument of the entry.
    ArgRef(String),
    /// A dotted path that starts with the name of an account of the entry.
    AccountRef(String),
}

/// The seeds from which an account's address is derived, in order.
#[derive(Debug, Clone, PartialEq, Eq)]
pub struct PdaSpec {
    pub seeds: Vec<SeedExpr>,
}

/// One account that an entry requires.
#[derive(Debug, Clone, PartialEq, Eq)]
pub struct SingleAccount {
    pub name: String,
    pub is_signer: bool,
    pub pda: Option<PdaSpec>,
}

/// A reference to an account, or a named group of such references.
#[derive(Debug, PartialEq, Eq)]
pub enum AccountRef {
    Single(SingleAccount),
    Composite { group_name: String, children: Vec<AccountRef> },
}

/// The declared type of an argument.
#[derive(Debug, Clone, PartialEq, Eq)]
pub enum ArgType {
    U8,
    U64,
    Bool,
    Text,
    PublicKey,
    /// A byte array of the given length.
    ByteArray(usize),
    /// Any other type, with the text that describes it.
    Other(String),
}

/// One declared argument of an entry.
#[derive(Debug, Clone, PartialEq, Eq)]
pub struct Argument {
    pub name: String,
    pub ty: ArgType,
}

/// One operation of the program that can be invoked from outside.
#[derive(Debug, PartialEq, Eq)]
pub struct Entry {
    pub name: String,
    pub accounts: Vec<AccountRef>,
    pub args: Vec<Argument>,
}

/// The interface of a program.
#[derive(Debug, PartialEq, Eq)]
pub struct Schema {
    pub name: String,
    pub entries: Vec<Entry>,
}

/// The first single account among `items` and what is below them, in
/// pre-order from left to right.
pub open spec fn first_leaf_in(items: Seq<AccountRef>) -> Option<SingleAccount>
    decreases items, 0nat,
{
    if items.len() == 0 {
        None
    } else {
        match first_leaf(items[0]) {
            Some(account) => Some(account),
            None => first_leaf_in(items.skip(1)),
        }
    }
}

/// The single account that a reference resolves to: the account itself, or
/// the first single account below a group, in pre-order. A group without any
/// single account resolves to none.
pub open spec fn first_leaf(item: AccountRef) -> Option<SingleAccount>
    decreases item, 1nat,
{
    match item {
        AccountRef::Single(account) => Some(account),
        AccountRef::Composite { group_name, children } => first_leaf_in(children@),
    }
}

/// Resolves a reference to its single account, by the first-leaf rule.
pub fn visit_account_item(item: &AccountRef) -> (r: Option<&SingleAccount>)
    ensures
        r == match first_leaf(*item) { Some(a) => Some(&a), None => None::<&SingleAccount> },
    decreases item, 0nat,
{
    match item {
        AccountRef::Single(account) => Some(account),
        AccountRef::Composite { group_name, children } => {
            let mut i: usize = 0;
            assert(children@.skip(0) =~= children@);
            while i < children.len()
                invariant
                    i <= children.len(),
                    *item == (AccountRef::Composite { group_name: *group_name, children: *children }),
                    first_leaf_in(children@) == first_leaf_in(children@.skip(i as int)),
                decreases children.len() - i,
            {
                let found = visit_account_item(&children[i]);
                if found.is_some() {
                    return found;
                }
                assert(children@.skip(i as int).skip(1) =~= children@.skip(i + 1));
                i += 1;
            }
            assert(children@.skip(i as int).len() == 0);
            None
        },
    }
}

} // verus!
