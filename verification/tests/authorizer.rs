use libsql_js::auth::{AuthAction, Authorization, Authorizer, AuthorizerBuilder};

fn sample() -> Authorizer {
    let mut builder = AuthorizerBuilder::new();
    builder.allow("users").allow("both").deny("secrets");
    builder.deny("both");
    builder.build()
}

fn on(table: &str) -> Vec<AuthAction> {
    let t = || table.to_string();
    vec![
        AuthAction::CreateIndex { table_name: t() },
        AuthAction::CreateTable { table_name: t() },
        AuthAction::CreateTempIndex { table_name: t() },
        AuthAction::CreateTempTable { table_name: t() },
        AuthAction::CreateTempTrigger { table_name: t() },
        AuthAction::CreateTrigger { table_name: t() },
        AuthAction::Delete { table_name: t() },
        AuthAction::DropIndex { table_name: t() },
        AuthAction::DropTable { table_name: t() },
        AuthAction::DropTempIndex { table_name: t() },
        AuthAction::DropTempTable { table_name: t() },
        AuthAction::DropTempTrigger { table_name: t() },
        AuthAction::Insert { table_name: t() },
        AuthAction::Read { table_name: t() },
        AuthAction::Update { table_name: t() },
        AuthAction::AlterTable { table_name: t() },
    ]
}

#[test]
fn an_allowed_table_is_allowed() {
    let authorizer = sample();
    assert_eq!(authorizer.authorize_table("users"), Authorization::Allow);
    for action in on("users") {
        assert_eq!(authorizer.authorize(&action), Authorization::Allow, "{:?}", action);
    }
}

#[test]
fn a_denied_table_is_denied() {
    let authorizer = sample();
    assert_eq!(authorizer.authorize_table("secrets"), Authorization::Deny);
    for action in on("secrets") {
        assert_eq!(authorizer.authorize(&action), Authorization::Deny, "{:?}", action);
    }
}

#[test]
fn a_denial_overrides_an_allowance() {
    let authorizer = sample();
    assert_eq!(authorizer.authorize_table("both"), Authorization::Deny);
    for action in on("both") {
        assert_eq!(authorizer.authorize(&action), Authorization::Deny, "{:?}", action);
    }
}

#[test]
fn a_table_without_a_rule_is_denied() {
    let authorizer = sample();
    assert_eq!(authorizer.authorize_table("unknown"), Authorization::Deny);
    assert_eq!(authorizer.authorize_table(""), Authorization::Deny);
    assert_eq!(authorizer.authorize_table("Users"), Authorization::Deny);
    for action in on("unknown") {
        assert_eq!(authorizer.authorize(&action), Authorization::Deny, "{:?}", action);
    }
}

#[test]
fn a_plain_select_is_allowed() {
    assert_eq!(sample().authorize(&AuthAction::Select), Authorization::Allow);
    assert_eq!(AuthorizerBuilder::new().build().authorize(&AuthAction::Select), Authorization::Allow);
}

#[test]
fn every_other_action_is_denied() {
    let authorizer = sample();
    let actions = vec![
        AuthAction::Unknown,
        AuthAction::CreateTempView,
        AuthAction::CreateView,
        AuthAction::DropTempView,
        AuthAction::DropTrigger,
        AuthAction::DropView,
        AuthAction::Pragma,
        AuthAction::Transaction,
        AuthAction::Attach,
        AuthAction::Detach,
        AuthAction::Reindex,
        AuthAction::Analyze,
        AuthAction::CreateVtable,
        AuthAction::DropVtable,
        AuthAction::Function,
        AuthAction::Savepoint,
        AuthAction::Recursive,
    ];
    for action in actions {
        assert_eq!(authorizer.authorize(&action), Authorization::Deny, "{:?}", action);
    }
}

#[test]
fn an_empty_authorizer_denies_every_table() {
    let authorizer = AuthorizerBuilder::new().build();
    for action in on("users") {
        assert_eq!(authorizer.authorize(&action), Authorization::Deny, "{:?}", action);
    }
}
