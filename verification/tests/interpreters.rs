use plan_rewrite::interpreters::DescSharePlan;
use plan_rewrite::interpreters::DescShareInterpreter;
use plan_rewrite::interpreters::ShareAccountReply;
use plan_rewrite::interpreters::ShareGrantObjectName;
use plan_rewrite::interpreters::ShareGrantReplyObject;
use plan_rewrite::interpreters::ShareNameIdent;
use plan_rewrite::interpreters::ShowSharesInterpreter;
use plan_rewrite::interpreters::ShowSharesPlan;

fn desc_interpreter() -> DescShareInterpreter {
    DescShareInterpreter::try_create(
        "tenant_a".to_string(),
        DescSharePlan { share: "share_1".to_string() },
    )
    .unwrap()
}

#[test]
fn desc_share_builds_request_identity() {
    let interp = desc_interpreter();
    assert_eq!(interp.name(), "DescShareInterpreter");
    let ident = interp.share_ident();
    assert_eq!(ident.tenant.as_str(), "tenant_a");
    assert_eq!(ident.share_name.as_str(), "share_1");
}

#[test]
fn desc_share_rows_for_database_and_table() {
    let interp = desc_interpreter();
    let objects = vec![
        ShareGrantReplyObject {
            object: ShareGrantObjectName::Database("db1".to_string()),
            grant_on: "2022-01-01".to_string(),
        },
        ShareGrantReplyObject {
            object: ShareGrantObjectName::Table("db1".to_string(), "t1".to_string()),
            grant_on: "2022-01-02".to_string(),
        },
    ];
    let rows = interp.build_rows(&objects);
    assert_eq!(rows.kinds, vec!["DATABASE".to_string(), "TABLE".to_string()]);
    assert_eq!(rows.names, vec!["db1".to_string(), "db1.t1".to_string()]);
    assert_eq!(rows.shared_ons, vec!["2022-01-01".to_string(), "2022-01-02".to_string()]);
}

#[test]
fn desc_share_rows_empty_for_no_objects() {
    let rows = desc_interpreter().build_rows(&vec![]);
    assert!(rows.kinds.is_empty());
    assert!(rows.names.is_empty());
    assert!(rows.shared_ons.is_empty());
}

fn reply(
    tenant: &str,
    share: &str,
    database: Option<&str>,
    comment: Option<&str>,
    accounts: Option<Vec<&str>>,
) -> ShareAccountReply {
    ShareAccountReply {
        share_name: ShareNameIdent {
            tenant: tenant.to_string(),
            share_name: share.to_string(),
        },
        create_on: "2022-03-04".to_string(),
        database_name: database.map(|s| s.to_string()),
        comment: comment.map(|s| s.to_string()),
        accounts: accounts.map(|v| v.into_iter().map(|s| s.to_string()).collect()),
    }
}

#[test]
fn show_shares_rows_inbound_then_outbound() {
    let interp = ShowSharesInterpreter::try_create("me".to_string(), ShowSharesPlan {}).unwrap();
    assert_eq!(interp.name(), "ShowSharesInterpreter");
    let inbound = vec![reply("other", "in_share", Some("db_in"), Some("hello"), None)];
    let outbound = vec![
        reply("me", "out_share", None, None, Some(vec!["acc1", "acc2"])),
        reply("me", "out_share2", None, None, None),
    ];
    let rows = interp.build_rows(&inbound, &outbound);
    assert_eq!(
        rows.names,
        vec!["in_share".to_string(), "out_share".to_string(), "out_share2".to_string()]
    );
    assert_eq!(
        rows.kinds,
        vec!["INBOUND".to_string(), "OUTBOUND".to_string(), "OUTBOUND".to_string()]
    );
    assert_eq!(rows.database_names[0].as_str(), "db_in");
    assert_eq!(rows.database_names[1].as_str(), "");
    assert_eq!(rows.from, vec!["other".to_string(), "me".to_string(), "me".to_string()]);
    assert_eq!(rows.to, vec!["me".to_string(), "acc1,acc2".to_string(), "".to_string()]);
    assert_eq!(rows.comments[0].as_str(), "hello");
    assert_eq!(rows.comments[1].as_str(), "");
}

#[test]
fn show_shares_rows_empty_for_no_entries() {
    let interp = ShowSharesInterpreter::try_create("me".to_string(), ShowSharesPlan {}).unwrap();
    let rows = interp.build_rows(&vec![], &vec![]);
    assert!(rows.names.is_empty());
    assert!(rows.to.is_empty());
}
