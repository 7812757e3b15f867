use glebus_vpn_bot::jsontext::json_escape;
use glebus_vpn_bot::keyboards::{
    back_to_main_menu, main_menu, new_user_confirmation, platform_keyboard,
};
use glebus_vpn_bot::messages::Messages;
use glebus_vpn_bot::presentation::{qr_plan, QrError, QrOp};
use glebus_vpn_bot::provision::{
    build_client_id, provision_outcome, subscription_url, ProvisioningStage,
};
use glebus_vpn_bot::strutil::{ascii_lowercase, i64_to_string, str_eq, u64_to_string};
use glebus_vpn_bot::types::{parse_command, Command};

#[test]
fn decimal_formatting() {
    assert_eq!(u64_to_string(0), "0");
    assert_eq!(u64_to_string(5), "5");
    assert_eq!(u64_to_string(42), "42");
    assert_eq!(u64_to_string(1234567890), "1234567890");
    assert_eq!(u64_to_string(u64::MAX), "18446744073709551615");
    assert_eq!(i64_to_string(0), "0");
    assert_eq!(i64_to_string(-1), "-1");
    assert_eq!(i64_to_string(i64::MIN), "-9223372036854775808");
    assert_eq!(i64_to_string(i64::MAX), "9223372036854775807");
}

#[test]
fn lowercase_is_ascii_only() {
    assert_eq!(ascii_lowercase("Windows"), "windows");
    assert_eq!(ascii_lowercase("MacOS"), "macos");
    assert_eq!(ascii_lowercase("iOS"), "ios");
    assert_eq!(ascii_lowercase("mixed-Case_42"), "mixed-case_42");
    assert_eq!(ascii_lowercase("Привет"), "Привет");
}

#[test]
fn string_comparison() {
    assert!(str_eq("abc", "abc"));
    assert!(!str_eq("abc", "abd"));
    assert!(!str_eq("abc", "abcd"));
}

#[test]
fn json_escaping() {
    assert_eq!(json_escape("plain"), "plain");
    assert_eq!(json_escape("a\"b"), "a\\\"b");
    assert_eq!(json_escape("a\\b"), "a\\\\b");
    assert_eq!(json_escape("line\nbreak\tand\r"), "line\\nbreak\\tand\\r");
    assert_eq!(json_escape("\u{8}\u{c}"), "\\b\\f");
    assert_eq!(json_escape("\u{1}\u{1f}"), "\\u0001\\u001f");
    // What serde_json would produce for the same text, quotes aside.
    let s = "mixed \"x\\y\"\n\u{3}";
    let serde_form = serde_json::to_string(s).unwrap();
    assert_eq!(format!("\"{}\"", json_escape(s)), serde_form);
}

#[test]
fn client_id_and_url() {
    assert_eq!(build_client_id("42", "Android", "tok1"), "42_android_tok1");
    assert_eq!(
        build_client_id("user", "MacOS", "abc"),
        "user_macos_abc"
    );
    let id1 = build_client_id("42", "Android", "tok1");
    let id2 = build_client_id("42", "Android", "tok2");
    assert_ne!(id1, id2);
    assert_eq!(
        subscription_url("https://sub.example", "42_android_tok1"),
        "https://sub.example/42_android_tok1"
    );
}

#[test]
fn provisioning_outcomes() {
    let r = provision_outcome(false, false, "https://s", "42", "Android", "t");
    assert!(matches!(r.unwrap_err().stage, ProvisioningStage::ServerPanel));
    let r = provision_outcome(true, false, "https://s", "42", "Android", "t");
    assert!(matches!(
        r.unwrap_err().stage,
        ProvisioningStage::AddingConnection
    ));
    let r = provision_outcome(true, true, "https://s", "42", "Android", "t").unwrap();
    assert_eq!(r.client_id, "42_android_t");
    assert_eq!(r.subscription_url, "https://s/42_android_t");
}

#[test]
fn stage_names() {
    assert_eq!(ProvisioningStage::ServerPanel.text(), "server panel");
    assert_eq!(ProvisioningStage::AddingConnection.text(), "adding connection");
}

#[test]
fn qr_cleanup_on_every_path() {
    let p = qr_plan(true, true);
    assert_eq!(p.ops, vec![QrOp::Render, QrOp::Send, QrOp::Remove]);
    assert!(p.result.is_ok());
    let p = qr_plan(true, false);
    assert_eq!(p.ops, vec![QrOp::Render, QrOp::Send, QrOp::Remove]);
    assert_eq!(p.result, Err(QrError::SendFailed));
    let p = qr_plan(false, true);
    assert_eq!(p.ops, vec![QrOp::Render, QrOp::Remove]);
    assert_eq!(p.result, Err(QrError::RenderFailed));
    let p = qr_plan(false, false);
    assert_eq!(p.ops.last(), Some(&QrOp::Remove));
}

#[test]
fn russian_messages() {
    let m = Messages::ru();
    assert_eq!(
        m.welcome_prompt(),
        "👋 Привет! Я помогу вам подключиться к GlebusVPN 🚀"
    );
    assert_eq!(m.new_user_confirmed(), "🚀 Давай!");
    assert_eq!(m.back(), "⬅️ Вернуться");
    assert!(m.invalid_input().contains("/help"));
    assert_eq!(
        m.error("создании пользователя"),
        "⚠️ Ой, кажется, в создании пользователя что-то пошло не так. 😕\n\nПопробуйте ещё раз. 🔄\n\nЕсли это не поможет, то свяжитесь с администратором."
    );
}

#[test]
fn keyboards_content() {
    let k = main_menu();
    let rows = &k.rows;
    assert_eq!(rows.len(), 4);
    assert_eq!(rows[0][0].label, "Информация обо мне");
    assert_eq!(rows[0][0].data, "show_about_me");
    assert_eq!(rows[1][0].data, "show_sub_link");
    assert_eq!(rows[2][0].data, "recreate_sub_link");
    assert_eq!(rows[3][0].data, "delete_me");
    let k = back_to_main_menu();
    assert_eq!(k.rows[0][0].label, "⬅️ Вернуться");
    assert_eq!(k.rows[0][0].data, "back_to_main_menu");
    let k = new_user_confirmation();
    assert_eq!(k.rows[0][0].label, "🚀 Давай!");
    assert_eq!(k.rows[0][0].data, "create_new_user");
    let k = platform_keyboard();
    assert_eq!(k.rows.len(), 1);
    let labels: Vec<&str> = k.rows[0].iter().map(|b| b.label.as_str()).collect();
    assert_eq!(labels, vec!["Windows", "Android", "Linux", "MacOS", "iOS"]);
    for b in &k.rows[0] {
        assert_eq!(b.label, b.data);
    }
}

#[test]
fn command_parsing_and_descriptions() {
    assert!(matches!(parse_command("/help"), Some(Command::Help)));
    assert!(matches!(parse_command("/start"), Some(Command::Start)));
    assert!(parse_command("/cancel").is_none());
    assert!(parse_command("hello").is_none());
    assert_eq!(
        Command::descriptions(),
        "Доступны следующие команды:\n\n/help — Показывает этот текст.\n/start — Запускает операцию добавления подключений к GlebusVPN."
    );
}
