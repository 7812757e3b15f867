use glebus_vpn_bot::error::MyError;
use glebus_vpn_bot::router::{parse_callback_token, CallbackToken};
use glebus_vpn_bot::handlers::{
    back_to_main_menu_reply, callback_route, create_new_user_reply, delete_me_reply,
    effective_user_id, error_reply, help_reply, invalid_input_reply, main_menu_reply,
    new_user_request, profile_text, recreate_reply, recreate_request, show_about_me_reply,
    show_sub_link_reply, start_reply, unknown_callback_reply, CallbackAction, ReplyKeyboard,
    TrafficLimitStrategy, UserRecord, UserStatus,
};

fn sample_user() -> UserRecord {
    UserRecord {
        uuid: "11111111-2222-3333-4444-555555555555".to_string(),
        username: "glebus".to_string(),
        status: UserStatus::Active,
        lifetime_used_traffic_bytes: 123456,
        traffic_limit_bytes: 0,
        traffic_limit_strategy: TrafficLimitStrategy::NoReset,
        sub_last_user_agent: Some("Happ/1.0".to_string()),
        expire_at: "2099-01-01 00:00:00 UTC".to_string(),
        created_at: "2024-05-01 10:00:00 UTC".to_string(),
        last_traffic_reset_at: None,
        first_connected_at: None,
        description: Some("desc".to_string()),
        tag: Some("TAG".to_string()),
        telegram_id: Some(42),
        email: None,
        hwid_device_limit: Some(3),
        active_internal_squads: vec!["squad-1".to_string(), "squad-2".to_string()],
        subscription_url: "https://sub.example/abc".to_string(),
        happ_crypto_link: "happ://crypto".to_string(),
    }
}

#[test]
fn start_shows_menu_for_existing_user() {
    let r = start_reply(true);
    assert_eq!(r.text, "Главное меню:");
    assert!(matches!(r.keyboard, ReplyKeyboard::MainMenu));
    assert!(!r.edit_existing);
    assert!(!r.markdown);
}

#[test]
fn start_offers_creation_for_new_user() {
    let r = start_reply(false);
    assert_eq!(r.text, "👋 Привет! Я помогу вам подключиться к GlebusVPN 🚀");
    assert!(matches!(r.keyboard, ReplyKeyboard::NewUserConfirmation));
}

#[test]
fn callback_routing() {
    assert!(matches!(
        callback_route("create_new_user"),
        CallbackAction::CreateNewUser
    ));
    assert!(matches!(
        callback_route("show_about_me"),
        CallbackAction::ShowAboutMe
    ));
    assert!(matches!(
        callback_route("show_sub_link"),
        CallbackAction::ShowSubLink
    ));
    assert!(matches!(
        callback_route("recreate_sub_link"),
        CallbackAction::RecreateSubLink
    ));
    assert!(matches!(callback_route("delete_me"), CallbackAction::DeleteMe));
    assert!(matches!(
        callback_route("back_to_main_menu"),
        CallbackAction::BackToMainMenu
    ));
    assert!(matches!(callback_route(""), CallbackAction::Unknown));
    assert!(matches!(
        callback_route("delete_connection_xyz"),
        CallbackAction::Unknown
    ));
    assert!(matches!(
        callback_route("show_about_me "),
        CallbackAction::Unknown
    ));
}

#[test]
fn unknown_callback_text() {
    let r = unknown_callback_reply(true);
    assert_eq!(r.text, "Неизвестная команда.");
    assert!(r.edit_existing);
    assert!(matches!(r.keyboard, ReplyKeyboard::NoKeyboard));
}

#[test]
fn new_user_request_fields() {
    let req = new_user_request(42, Some("glebus".to_string())).unwrap();
    assert_eq!(req.username, "glebus");
    assert!(matches!(req.status, UserStatus::Active));
    assert_eq!(req.traffic_limit_bytes, None);
    assert!(matches!(
        req.traffic_limit_strategy,
        TrafficLimitStrategy::NoReset
    ));
    assert_eq!(req.expire_at, "2099-01-01T00:00:00Z");
    assert_eq!(req.created_at, None);
    assert_eq!(req.telegram_id, Some(42));
    assert_eq!(req.email, None);
    assert_eq!(req.hwid_device_limit, None);
    assert!(req.active_internal_squads.is_none());
    assert!(req.description.is_none());
    assert!(req.tag.is_none());
}

#[test]
fn new_user_request_falls_back_to_id() {
    let req = new_user_request(9000, None).unwrap();
    assert_eq!(req.username, "9000");
}

#[test]
fn new_user_request_refuses_huge_id() {
    let r = new_user_request(u64::MAX, None);
    match r {
        Err(MyError::Custom(d)) => assert_eq!(d, "User ID too large for i64"),
        _ => panic!("expected Custom error"),
    }
}

#[test]
fn recreate_request_carries_metadata_over() {
    let user = sample_user();
    let req = recreate_request(user, 42).unwrap();
    assert_eq!(req.username, "glebus");
    assert!(matches!(req.status, UserStatus::Active));
    assert_eq!(req.traffic_limit_bytes, Some(0));
    assert!(matches!(
        req.traffic_limit_strategy,
        TrafficLimitStrategy::NoReset
    ));
    assert_eq!(req.expire_at, "2099-01-01 00:00:00 UTC");
    assert_eq!(req.created_at, Some("2024-05-01 10:00:00 UTC".to_string()));
    assert_eq!(req.last_traffic_reset_at, None);
    assert_eq!(req.description, Some("desc".to_string()));
    assert_eq!(req.tag, Some("TAG".to_string()));
    assert_eq!(req.telegram_id, Some(42));
    assert_eq!(req.email, None);
    assert_eq!(req.hwid_device_limit, Some(3));
    assert_eq!(
        req.active_internal_squads,
        Some(vec!["squad-1".to_string(), "squad-2".to_string()])
    );
}

#[test]
fn profile_text_exact() {
    let user = sample_user();
    let text = profile_text(&user);
    let expected = String::new()
        + "🔑 *Профиль пользователя*\n Имя пользователя: `glebus`"
        + "\n Статус: `ACTIVE`"
        + "\n📲 *Идентификаторы*\n Telegram ID: `42`"
        + "\n Email: `null`"
        + "\n📊 *Трафик*\n Использовано за все время: `123456`"
        + "\n Лимит трафика: `0`"
        + "\n🖥 *Подключения и агенты*\n Последний UserAgent: `Happ/1.0`"
        + "\n Первое подключение: `1970-01-01 00:00:00 UTC`"
        + "\n⏰ *Срок действия подписки*\n Активно до: `2099-01-01 00:00:00 UTC`"
        + "\n📥 *Ссылки*\n Подписка: `https://sub.example/abc`"
        + "\n HAPP Crypto Link: `happ://crypto`";
    assert_eq!(text, expected);
}

#[test]
fn about_reply_uses_profile_and_error_context() {
    let user = sample_user();
    let r = show_about_me_reply(Some(&user), true);
    assert!(r.markdown);
    assert!(r.edit_existing);
    assert!(matches!(r.keyboard, ReplyKeyboard::BackToMainMenu));
    assert!(r.text.contains("Профиль пользователя"));
    let r = show_about_me_reply(None, false);
    assert!(r.text.contains("получении информации о пользователе"));
}

#[test]
fn sub_link_reply_texts() {
    let r = show_sub_link_reply(Some("https://sub.example/abc"), true);
    assert_eq!(r.text, "Ваша ссылка на подписку: `https://sub.example/abc`");
    assert!(r.markdown);
    let r = show_sub_link_reply(None, true);
    assert!(r.text.contains("получении ссылки на подписку"));
}

#[test]
fn create_reply_texts() {
    let r = create_new_user_reply(Some("https://sub.example/new"), false);
    assert_eq!(
        r.text,
        "Ваша подписка создана\\! Ссылка: `https://sub.example/new`"
    );
    let r = create_new_user_reply(None, false);
    assert!(r.text.contains("создании пользователя"));
}

#[test]
fn recreate_reply_stages() {
    let r = recreate_reply(false, false, None, true);
    assert!(r.text.contains("получении информации о пользователе"));
    let r = recreate_reply(true, false, None, true);
    assert!(r.text.contains("удалении пользователя"));
    let r = recreate_reply(true, true, None, true);
    assert!(r.text.contains("создании пользователя"));
    let r = recreate_reply(true, true, Some("https://sub.example/n"), true);
    assert_eq!(r.text, "Новая ссылка на вашу подписку: `https://sub.example/n`");
}

#[test]
fn delete_reply_stages() {
    let r = delete_me_reply(false, false, true);
    assert!(r.text.contains("получении информации о пользователе"));
    let r = delete_me_reply(true, false, true);
    assert!(r.text.contains("удалении пользователя"));
    let r = delete_me_reply(true, true, true);
    assert_eq!(
        r.text,
        "Ваша подписка успешно удалена, для повторного создания подписки используйте команду /start"
    );
    assert!(!r.markdown);
    assert!(matches!(r.keyboard, ReplyKeyboard::NoKeyboard));
}

#[test]
fn back_to_menu_depends_on_existence() {
    let r = back_to_main_menu_reply(true, true);
    assert_eq!(r.text, "Главное меню:");
    assert!(r.edit_existing);
    let r = back_to_main_menu_reply(false, false);
    assert!(matches!(r.keyboard, ReplyKeyboard::NewUserConfirmation));
}

#[test]
fn misc_replies() {
    let r = main_menu_reply(false);
    assert_eq!(r.text, "Главное меню:");
    let r = help_reply();
    assert!(r.text.starts_with("Доступны следующие команды:"));
    let r = invalid_input_reply();
    assert!(r.text.contains("/help"));
    let r = error_reply("обработке запроса", true);
    assert_eq!(
        r.text,
        "⚠️ Ой, кажется, в обработке запроса что-то пошло не так. 😕\n\nПопробуйте ещё раз. 🔄\n\nЕсли это не поможет, то свяжитесь с администратором."
    );
}

#[test]
fn effective_user_id_defaults_to_zero() {
    assert_eq!(effective_user_id(Some(7)), 7);
    assert_eq!(effective_user_id(None), 0);
}

#[test]
fn callback_tokens_parse_defensively() {
    assert!(matches!(
        parse_callback_token("create_new_user"),
        CallbackToken::Menu(CallbackAction::CreateNewUser)
    ));
    assert!(matches!(
        parse_callback_token("back_to_main_menu"),
        CallbackToken::Menu(CallbackAction::BackToMainMenu)
    ));
    match parse_callback_token("Android") {
        CallbackToken::Platform(p) => assert_eq!(p, "Android"),
        _ => panic!("expected Platform"),
    }
    assert!(matches!(
        parse_callback_token("device_count_3"),
        CallbackToken::DeviceCount(3)
    ));
    assert!(matches!(
        parse_callback_token("edit_connection_12"),
        CallbackToken::EditConnection(12)
    ));
    assert!(matches!(
        parse_callback_token("delete_connection_0"),
        CallbackToken::DeleteConnection(0)
    ));
    match parse_callback_token("change_platform_2_Android") {
        CallbackToken::ChangePlatform(i, p) => {
            assert_eq!(i, 2);
            assert_eq!(p, "Android");
        }
        _ => panic!("expected ChangePlatform"),
    }
    // Malformed tokens map to Invalid, never a crash.
    assert!(matches!(parse_callback_token(""), CallbackToken::Invalid));
    assert!(matches!(
        parse_callback_token("device_count_"),
        CallbackToken::Invalid
    ));
    assert!(matches!(
        parse_callback_token("device_count_x"),
        CallbackToken::Invalid
    ));
    assert!(matches!(
        parse_callback_token("device_count_99999999999999999999999"),
        CallbackToken::Invalid
    ));
    assert!(matches!(
        parse_callback_token("edit_connection_"),
        CallbackToken::Invalid
    ));
    assert!(matches!(
        parse_callback_token("change_platform_2_"),
        CallbackToken::Invalid
    ));
    assert!(matches!(
        parse_callback_token("change_platform__Android"),
        CallbackToken::Invalid
    ));
    assert!(matches!(
        parse_callback_token("change_platform_x_Android"),
        CallbackToken::Invalid
    ));
    assert!(matches!(
        parse_callback_token("something_else"),
        CallbackToken::Invalid
    ));
}
