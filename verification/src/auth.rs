//! The authorizer: a table of allowed and denied tables that is asked about
//! each action while a statement is compiled.

use vstd::hash_set::StringHashSet;
use vstd::prelude::*;

verus! {

/// The answer of the authorizer to one action.
#[derive(Debug, Clone, Copy, PartialEq, Eq, Structural)]
pub enum Authorization {
    Allow,
    Deny,
}

/// An action that the engine asks leave for. An action on a table names it.
#[derive(Debug, Clone, PartialEq, Eq)]
pub enum AuthAction {
    Unknown,
    CreateIndex { table_name: String },
    CreateTable { table_name: String },
    CreateTempIndex { table_name: String },
    CreateTempTable { table_name: String },
    CreateTempTrigger { table_name: String },
    CreateTempView,
    CreateTrigger { table_name: String },
    CreateView,
    Delete { table_name: String },
    DropIndex { table_name: String },
    DropTable { table_name: String },
    DropTempIndex { table_name: String },
    DropTempTable { table_name: String },
    DropTempTrigger { table_name: String },
    DropTempView,
    DropTrigger,
    DropView,
    Insert { table_name: String },
    Pragma,
    Read { table_name: String },
    Select,
    Transaction,
    Update { table_name: String },
    Attach,
    Detach,
    AlterTable { table_name: String },
    Reindex,
    Analyze,
    CreateVtable,
    DropVtable,
    Function,
    Savepoint,
    Recursive,
}

impl AuthAction {
    /// The table whose rule decides the action, for the actions that a table's
    /// rule decides.
    pub open spec fn governing_table(&self) -> Option<Seq<char>> {
        match *self {
            AuthAction::CreateIndex { table_name } => Some(table_name@),
            AuthAction::CreateTable { table_name } => Some(table_name@),
            AuthAction::CreateTempIndex { table_name } => Some(table_name@),
            AuthAction::CreateTempTable { table_name } => Some(table_name@),
            AuthAction::CreateTempTrigger { table_name } => Some(table_name@),
            AuthAction::CreateTrigger { table_name } => Some(table_name@),
            AuthAction::Delete { table_name } => Some(table_name@),
            AuthAction::DropIndex { table_name } => Some(table_name@),
            AuthAction::DropTable { table_name } => Some(table_name@),
            AuthAction::DropTempIndex { table_name } => Some(table_name@),
            AuthAction::DropTempTable { table_name } => Some(table_name@),
            AuthAction::DropTempTrigger { table_name } => Some(table_name@),
            AuthAction::Insert { table_name } => Some(table_name@),
            AuthAction::Read { table_name } => Some(table_name@),
            AuthAction::Update { table_name } => Some(table_name@),
            AuthAction::AlterTable { table_name } => Some(table_name@),
            _ => None,
        }
    }
}

/// The answer for a table: allowed where a rule allows it and none denies it.
pub open spec fn table_verdict(
    allowed: Set<Seq<char>>,
    denied: Set<Seq<char>>,
    table: Seq<char>,
) -> Authorization {
    if allowed.contains(table) && !denied.contains(table) {
        Authorization::Allow
    } else {
        Authorization::Deny
    }
}

/// The answer for an action: that of its table where a table's rule decides
/// it; a plain select is allowed; everything else is denied.
pub open spec fn action_verdict(
    allowed: Set<Seq<char>>,
    denied: Set<Seq<char>>,
    action: AuthAction,
) -> Authorization {
    match action.governing_table() {
        Some(table) => table_verdict(allowed, denied, table),
        None => if action is Select {
            Authorization::Allow
        } else {
            Authorization::Deny
        },
    }
}

/// Collects the rules of an authorizer.
pub struct AuthorizerBuilder {
    allow_list: StringHashSet,
    deny_list: StringHashSet,
}

impl AuthorizerBuilder {
    /// The tables that a rule allows.
    pub closed spec fn allowed(&self) -> Set<Seq<char>> {
        self.allow_list@
    }

    /// The tables that a rule denies.
    pub closed spec fn denied(&self) -> Set<Seq<char>> {
        self.deny_list@
    }

    /// A builder without rules.
    pub fn new() -> (builder: Self)
        ensures
            builder.allowed() == Set::<Seq<char>>::empty(),
            builder.denied() == Set::<Seq<char>>::empty(),
    {
        Self { allow_list: StringHashSet::new(), deny_list: StringHashSet::new() }
    }

    /// Adds a rule that allows `table`.
    pub fn allow(&mut self, table: &str) -> (builder: &mut Self)
        ensures
            builder.allowed() == old(self).allowed().insert(table@),
            builder.denied() == old(self).denied(),
            *final(self) == *final(builder),
    {
        self.allow_list.insert(table.to_owned());
        self
    }

    /// Adds a rule that denies `table`.
    pub fn deny(&mut self, table: &str) -> (builder: &mut Self)
        ensures
            builder.allowed() == old(self).allowed(),
            builder.denied() == old(self).denied().insert(table@),
            *final(self) == *final(builder),
    {
        self.deny_list.insert(table.to_owned());
        self
    }

    /// The authorizer with the rules collected so far.
    pub fn build(self) -> (authorizer: Authorizer)
        ensures
            authorizer.allowed() == self.allowed(),
            authorizer.denied() == self.denied(),
    {
        Authorizer::new(self.allow_list, self.deny_list)
    }
}

/// Answers for each action whether the rules allow it.
pub struct Authorizer {
    allow_list: StringHashSet,
    deny_list: StringHashSet,
}

impl Authorizer {
    /// The tables that a rule allows.
    pub closed spec fn allowed(&self) -> Set<Seq<char>> {
        self.allow_list@
    }

    /// The tables that a rule denies.
    pub closed spec fn denied(&self) -> Set<Seq<char>> {
        self.deny_list@
    }

    /// An authorizer that allows the tables of `allow_list` and denies those
    /// of `deny_list`.
    pub fn new(allow_list: StringHashSet, deny_list: StringHashSet) -> (authorizer: Self)
        ensures
            authorizer.allowed() == allow_list@,
            authorizer.denied() == deny_list@,
    {
        Self { allow_list, deny_list }
    }

    /// Decides one action.
    pub fn authorize(&self, action: &AuthAction) -> (verdict: Authorization)
        ensures
            verdict == action_verdict(self.allowed(), self.denied(), *action),
    {
        match action {
            AuthAction::CreateIndex { table_name } => self.authorize_table(table_name.as_str()),
            AuthAction::CreateTable { table_name } => self.authorize_table(table_name.as_str()),
            AuthAction::CreateTempIndex { table_name } => self.authorize_table(
                table_name.as_str(),
            ),
            AuthAction::CreateTempTable { table_name } => self.authorize_table(
                table_name.as_str(),
            ),
            AuthAction::CreateTempTrigger { table_name } => self.authorize_table(
                table_name.as_str(),
            ),
            AuthAction::CreateTrigger { table_name } => self.authorize_table(table_name.as_str()),
            AuthAction::Delete { table_name } => self.authorize_table(table_name.as_str()),
            AuthAction::DropIndex { table_name } => self.authorize_table(table_name.as_str()),
            AuthAction::DropTable { table_name } => self.authorize_table(table_name.as_str()),
            AuthAction::DropTempIndex { table_name } => self.authorize_table(table_name.as_str()),
            AuthAction::DropTempTable { table_name } => self.authorize_table(table_name.as_str()),
            AuthAction::DropTempTrigger { table_name } => self.authorize_table(
                table_name.as_str(),
            ),
            AuthAction::Insert { table_name } => self.authorize_table(table_name.as_str()),
            AuthAction::Read { table_name } => self.authorize_table(table_name.as_str()),
            AuthAction::Update { table_name } => self.authorize_table(table_name.as_str()),
            AuthAction::AlterTable { table_name } => self.authorize_table(table_name.as_str()),
            AuthAction::Select => Authorization::Allow,
            _ => Authorization::Deny,
        }
    }

    /// Decides an action on `table`.
    pub fn authorize_table(&self, table: &str) -> (verdict: Authorization)
        ensures
            verdict == table_verdict(self.allowed(), self.denied(), table@),
    {
        if self.deny_list.contains(table) {
            return Authorization::Deny;
        }
        if self.allow_list.contains(table) {
            return Authorization::Allow;
        }
        Authorization::Deny
    }
}

} // verus!
