use vstd::prelude::*;

use crate::error::MyError;
use crate::messages::{error_text_spec, Messages};
use crate::strutil::{dec_digits, dec_int, i64_to_string, str_eq, u64_to_string};
use crate::types::Command;
use vstd::string::StringExecFns;

verus! {

/// A subscription's lifecycle status, as the backend reports it.
#[derive(Clone, Copy, PartialEq, Eq, Structural, Debug)]
pub enum UserStatus {
    Active,
    Disabled,
    Limited,
    Expired,
}

/// The uppercase wire name of a status, which is also how it is displayed.
pub open spec fn status_text_spec(s: UserStatus) -> Seq<char> {
    match s {
        UserStatus::Active => "ACTIVE"@,
        UserStatus::Disabled => "DISABLED"@,
        UserStatus::Limited => "LIMITED"@,
        UserStatus::Expired => "EXPIRED"@,
    }
}

impl UserStatus {
    /// The status name shown in the profile.
    pub fn text(&self) -> (r: String)
        ensures
            r@ == status_text_spec(*self),
    {
        match self {
            UserStatus::Active => "ACTIVE".to_owned(),
            UserStatus::Disabled => "DISABLED".to_owned(),
            UserStatus::Limited => "LIMITED".to_owned(),
            UserStatus::Expired => "EXPIRED".to_owned(),
        }
    }
}

/// How the backend resets a subscription's traffic counter.
#[derive(Clone, Copy, PartialEq, Eq, Structural, Debug)]
pub enum TrafficLimitStrategy {
    NoReset,
    Day,
    Week,
    Month,
}

/// The library's model of one backend subscription record: the fields the bot
/// reads or carries over. Timestamps are held as their display texts, supplied
/// by the transport layer.
pub struct UserRecord {
    pub uuid: String,
    pub username: String,
    pub status: UserStatus,
    pub lifetime_used_traffic_bytes: i64,
    pub traffic_limit_bytes: i64,
    pub traffic_limit_strategy: TrafficLimitStrategy,
    pub sub_last_user_agent: Option<String>,
    pub expire_at: String,
    pub created_at: String,
    pub last_traffic_reset_at: Option<String>,
    pub first_connected_at: Option<String>,
    pub description: Option<String>,
    pub tag: Option<String>,
    pub telegram_id: Option<i64>,
    pub email: Option<String>,
    pub hwid_device_limit: Option<u64>,
    pub active_internal_squads: Vec<String>,
    pub subscription_url: String,
    pub happ_crypto_link: String,
}

/// The library's model of a create-user request: what the bot decides; the
/// transport layer fills the remaining wire fields with their defaults.
pub struct NewUserRequest {
    pub username: String,
    pub status: UserStatus,
    pub traffic_limit_bytes: Option<u64>,
    pub traffic_limit_strategy: TrafficLimitStrategy,
    pub expire_at: String,
    pub created_at: Option<String>,
    pub last_traffic_reset_at: Option<String>,
    pub description: Option<String>,
    pub tag: Option<String>,
    pub telegram_id: Option<i64>,
    pub email: Option<String>,
    pub hwid_device_limit: Option<u64>,
    pub active_internal_squads: Option<Vec<String>>,
}

/// Which keyboard a reply shows.
#[derive(Clone, Copy, PartialEq, Eq, Structural, Debug)]
pub enum ReplyKeyboard {
    NoKeyboard,
    MainMenu,
    BackToMainMenu,
    NewUserConfirmation,
}

/// A decided reply: whether to edit the triggering message in place or send a
/// new one, the text, the keyboard to attach, and whether the text uses
/// MarkdownV2.
pub struct ReplyPlan {
    pub edit_existing: bool,
    pub text: String,
    pub keyboard: ReplyKeyboard,
    pub markdown: bool,
}

/// The identity a message or callback is attributed to: the sender's id, or
/// zero when the sender is unknown.
pub fn effective_user_id(from: Option<u64>) -> (r: u64)
    ensures
        from matches Some(u) ==> r == u,
        from is None ==> r == 0,
{
    match from {
        Some(u) => u,
        None => 0,
    }
}

/// The main-menu reply; it edits the triggering message when there is one.
pub fn main_menu_reply(has_message: bool) -> (r: ReplyPlan)
    ensures
        r.edit_existing == has_message,
        r.text@ == "Главное меню:"@,
        r.keyboard is MainMenu,
        !r.markdown,
{
    ReplyPlan {
        edit_existing: has_message,
        text: "Главное меню:".to_owned(),
        keyboard: ReplyKeyboard::MainMenu,
        markdown: false,
    }
}

/// The stage-qualified error reply, with a button back to the main menu.
pub fn error_reply(context: &str, has_message: bool) -> (r: ReplyPlan)
    ensures
        r.edit_existing == has_message,
        r.text@ == error_text_spec(context@),
        r.keyboard is BackToMainMenu,
        r.markdown,
{
    ReplyPlan {
        edit_existing: has_message,
        text: Messages::ru().error(context),
        keyboard: ReplyKeyboard::BackToMainMenu,
        markdown: true,
    }
}

/// Decides the `/start` reply: a user with a subscription gets the main menu;
/// one without gets the greeting with the create-confirmation button.
pub fn start_reply(user_exists: bool) -> (r: ReplyPlan)
    ensures
        !r.edit_existing,
        !r.markdown,
        user_exists ==> r.text@ == "Главное меню:"@ && r.keyboard is MainMenu,
        !user_exists ==> r.text@ == "👋 Привет! Я помогу вам подключиться к GlebusVPN 🚀"@
            && r.keyboard is NewUserConfirmation,
{
    if user_exists {
        main_menu_reply(false)
    } else {
        ReplyPlan {
            edit_existing: false,
            text: Messages::ru().welcome_prompt(),
            keyboard: ReplyKeyboard::NewUserConfirmation,
            markdown: false,
        }
    }
}

/// The `/help` reply: the command list, sent as a new message.
pub fn help_reply() -> (r: ReplyPlan)
    ensures
        !r.edit_existing,
        !r.markdown,
        r.keyboard is NoKeyboard,
        r.text@
            == "Доступны следующие команды:\n\n/help — Показывает этот текст.\n/start — Запускает операцию добавления подключений к GlebusVPN."@,
{
    ReplyPlan {
        edit_existing: false,
        text: Command::descriptions(),
        keyboard: ReplyKeyboard::NoKeyboard,
        markdown: false,
    }
}

/// The reply to a message that is no recognized command.
pub fn invalid_input_reply() -> (r: ReplyPlan)
    ensures
        !r.edit_existing,
        !r.markdown,
        r.keyboard is NoKeyboard,
        r.text@
            == "⚠️ Ой, кажется, вы ввели что-то непонятное. 😅\n\nИспользуйте /help для справки. 😊"@,
{
    ReplyPlan {
        edit_existing: false,
        text: Messages::ru().invalid_input(),
        keyboard: ReplyKeyboard::NoKeyboard,
        markdown: false,
    }
}

/// The menu actions a callback token can name.
#[derive(Clone, Copy, PartialEq, Eq, Structural, Debug)]
pub enum CallbackAction {
    CreateNewUser,
    ShowAboutMe,
    ShowSubLink,
    RecreateSubLink,
    DeleteMe,
    BackToMainMenu,
    Unknown,
}

/// Routes a callback token to its menu action; any other token — including a
/// malformed one — maps to `Unknown`, never to a crash.
pub fn callback_route(data: &str) -> (r: CallbackAction)
    ensures
        r is CreateNewUser <==> data@ == "create_new_user"@,
        r is ShowAboutMe <==> data@ == "show_about_me"@,
        r is ShowSubLink <==> data@ == "show_sub_link"@,
        r is RecreateSubLink <==> data@ == "recreate_sub_link"@,
        r is DeleteMe <==> data@ == "delete_me"@,
        r is BackToMainMenu <==> data@ == "back_to_main_menu"@,
{
    proof {
        reveal_strlit("create_new_user");
        reveal_strlit("show_about_me");
        reveal_strlit("show_sub_link");
        reveal_strlit("recreate_sub_link");
        reveal_strlit("delete_me");
        reveal_strlit("back_to_main_menu");
        assert(("create_new_user"@).len() == 15);
        assert(("show_about_me"@).len() == 13);
        assert(("show_sub_link"@).len() == 13);
        assert(("recreate_sub_link"@).len() == 17);
        assert(("delete_me"@).len() == 9);
        assert(("back_to_main_menu"@).len() == 17);
        assert("show_about_me"@ != "show_sub_link"@) by {
            assert(("show_about_me"@)[5] == 'a');
            assert(("show_sub_link"@)[5] == 's');
        }
        assert("recreate_sub_link"@ != "back_to_main_menu"@) by {
            assert(("recreate_sub_link"@)[0] == 'r');
            assert(("back_to_main_menu"@)[0] == 'b');
        }
    }
    if str_eq(data, "create_new_user") {
        CallbackAction::CreateNewUser
    } else if str_eq(data, "show_about_me") {
        CallbackAction::ShowAboutMe
    } else if str_eq(data, "show_sub_link") {
        CallbackAction::ShowSubLink
    } else if str_eq(data, "recreate_sub_link") {
        CallbackAction::RecreateSubLink
    } else if str_eq(data, "delete_me") {
        CallbackAction::DeleteMe
    } else if str_eq(data, "back_to_main_menu") {
        CallbackAction::BackToMainMenu
    } else {
        CallbackAction::Unknown
    }
}

/// The reply to a callback token that names no action.
pub fn unknown_callback_reply(has_message: bool) -> (r: ReplyPlan)
    ensures
        r.edit_existing == has_message,
        !r.markdown,
        r.keyboard is NoKeyboard,
        r.text@ == "Неизвестная команда."@,
{
    ReplyPlan {
        edit_existing: has_message,
        text: "Неизвестная команда.".to_owned(),
        keyboard: ReplyKeyboard::NoKeyboard,
        markdown: false,
    }
}

/// Builds the create-user request for a fresh subscription: the sender's
/// username (their id in decimal when they have none), an active status with no
/// traffic limit or reset, a fixed far-future expiry, and the chat identity for
/// later lookup. A sender id too large for the backend's signed identity field
/// is refused.
pub fn new_user_request(user_id: u64, username: Option<String>) -> (r: Result<
    NewUserRequest,
    MyError,
>)
    ensures
        user_id > i64::MAX as u64 ==> (r matches Err(MyError::Custom(d)) && d@
            == "User ID too large for i64"@),
        user_id <= i64::MAX as u64 ==> (r matches Ok(req) && {
            &&& req.username@ == (match username {
                Some(u) => u@,
                None => dec_digits(user_id as nat),
            })
            &&& req.status is Active
            &&& req.traffic_limit_bytes is None
            &&& req.traffic_limit_strategy is NoReset
            &&& req.expire_at@ == "2099-01-01T00:00:00Z"@
            &&& req.created_at is None
            &&& req.last_traffic_reset_at is None
            &&& req.description is None
            &&& req.tag is None
            &&& req.telegram_id == Some(user_id as i64)
            &&& req.email is None
            &&& req.hwid_device_limit is None
            &&& req.active_internal_squads is None
        }),
{
    if user_id > i64::MAX as u64 {
        return Err(MyError::Custom("User ID too large for i64".to_owned()));
    }
    let name = match username {
        Some(u) => u,
        None => u64_to_string(user_id),
    };
    Ok(
        NewUserRequest {
            username: name,
            status: UserStatus::Active,
            traffic_limit_bytes: None,
            traffic_limit_strategy: TrafficLimitStrategy::NoReset,
            expire_at: "2099-01-01T00:00:00Z".to_owned(),
            created_at: None,
            last_traffic_reset_at: None,
            description: None,
            tag: None,
            telegram_id: Some(user_id as i64),
            email: None,
            hwid_device_limit: None,
            active_internal_squads: None,
        },
    )
}

/// Builds the create-user request that recreates an existing subscription: the
/// prior record's metadata is carried over unchanged, except that the traffic
/// counter limit is reset to zero; the chat identity is attached anew. A sender
/// id too large for the backend's signed identity field is refused.
pub fn recreate_request(existing: UserRecord, user_id: u64) -> (r: Result<NewUserRequest, MyError>)
    ensures
        user_id > i64::MAX as u64 ==> (r matches Err(MyError::Custom(d)) && d@
            == "User ID too large for i64"@),
        user_id <= i64::MAX as u64 ==> (r matches Ok(req) && {
            &&& req.username@ == existing.username@
            &&& req.status == existing.status
            &&& req.traffic_limit_bytes == Some(0u64)
            &&& req.traffic_limit_strategy == existing.traffic_limit_strategy
            &&& req.expire_at@ == existing.expire_at@
            &&& req.created_at matches Some(c) && c@ == existing.created_at@
            &&& req.last_traffic_reset_at.deep_view() == existing.last_traffic_reset_at.deep_view()
            &&& req.description.deep_view() == existing.description.deep_view()
            &&& req.tag.deep_view() == existing.tag.deep_view()
            &&& req.telegram_id == Some(user_id as i64)
            &&& req.email.deep_view() == existing.email.deep_view()
            &&& req.hwid_device_limit == existing.hwid_device_limit
            &&& req.active_internal_squads matches Some(s) && s.deep_view()
                == existing.active_internal_squads.deep_view()
        }),
{
    if user_id > i64::MAX as u64 {
        return Err(MyError::Custom("User ID too large for i64".to_owned()));
    }
    let UserRecord {
        uuid: _,
        username,
        status,
        lifetime_used_traffic_bytes: _,
        traffic_limit_bytes: _,
        traffic_limit_strategy,
        sub_last_user_agent: _,
        expire_at,
        created_at,
        last_traffic_reset_at,
        first_connected_at: _,
        description,
        tag,
        telegram_id: _,
        email,
        hwid_device_limit,
        active_internal_squads,
        subscription_url: _,
        happ_crypto_link: _,
    } = existing;
    Ok(
        NewUserRequest {
            username,
            status,
            traffic_limit_bytes: Some(0),
            traffic_limit_strategy,
            expire_at,
            created_at: Some(created_at),
            last_traffic_reset_at,
            description,
            tag,
            telegram_id: Some(user_id as i64),
            email,
            hwid_device_limit,
            active_internal_squads: Some(active_internal_squads),
        },
    )
}

/// A text inside the `Some`, or the given fallback.
pub open spec fn opt_text(o: Option<Seq<char>>, fallback: Seq<char>) -> Seq<char> {
    match o {
        Some(s) => s,
        None => fallback,
    }
}

/// The profile text shown for a subscription record: every field the backend
/// reports, each on its own labelled line, with absent optional fields shown as
/// their display defaults.
pub open spec fn profile_text_spec(u: UserRecord) -> Seq<char> {
    "🔑 *Профиль пользователя*\n Имя пользователя: `"@ + u.username@ + "`\n Статус: `"@
        + status_text_spec(u.status) + "`\n📲 *Идентификаторы*\n Telegram ID: `"@ + dec_int(
        match u.telegram_id {
            Some(t) => t as int,
            None => 0,
        },
    ) + "`\n Email: `"@ + opt_text(u.email.deep_view(), "null"@)
        + "`\n📊 *Трафик*\n Использовано за все время: `"@ + dec_int(
        u.lifetime_used_traffic_bytes as int,
    ) + "`\n Лимит трафика: `"@ + dec_int(u.traffic_limit_bytes as int)
        + "`\n🖥 *Подключения и агенты*\n Последний UserAgent: `"@ + opt_text(
        u.sub_last_user_agent.deep_view(),
        "null"@,
    ) + "`\n Первое подключение: `"@ + opt_text(
        u.first_connected_at.deep_view(),
        "1970-01-01 00:00:00 UTC"@,
    ) + "`\n⏰ *Срок действия подписки*\n Активно до: `"@ + u.expire_at@
        + "`\n📥 *Ссылки*\n Подписка: `"@ + u.subscription_url@ + "`\n HAPP Crypto Link: `"@
        + u.happ_crypto_link@ + "`"@
}

/// Formats the profile text for a subscription record.
pub fn profile_text(u: &UserRecord) -> (r: String)
    ensures
        r@ == profile_text_spec(*u),
{
    let mut r = "🔑 *Профиль пользователя*\n Имя пользователя: `".to_owned();
    r.append(u.username.as_str());
    r.append("`\n Статус: `");
    let status = u.status.text();
    r.append(status.as_str());
    r.append("`\n📲 *Идентификаторы*\n Telegram ID: `");
    let tg = i64_to_string(
        match &u.telegram_id {
            Some(t) => *t,
            None => 0,
        },
    );
    r.append(tg.as_str());
    r.append("`\n Email: `");
    r.append(
        match &u.email {
            Some(e) => e.as_str(),
            None => "null",
        },
    );
    r.append("`\n📊 *Трафик*\n Использовано за все время: `");
    let used = i64_to_string(u.lifetime_used_traffic_bytes);
    r.append(used.as_str());
    r.append("`\n Лимит трафика: `");
    let limit = i64_to_string(u.traffic_limit_bytes);
    r.append(limit.as_str());
    r.append("`\n🖥 *Подключения и агенты*\n Последний UserAgent: `");
    r.append(
        match &u.sub_last_user_agent {
            Some(a) => a.as_str(),
            None => "null",
        },
    );
    r.append("`\n Первое подключение: `");
    r.append(
        match &u.first_connected_at {
            Some(t) => t.as_str(),
            None => "1970-01-01 00:00:00 UTC",
        },
    );
    r.append("`\n⏰ *Срок действия подписки*\n Активно до: `");
    r.append(u.expire_at.as_str());
    r.append("`\n📥 *Ссылки*\n Подписка: `");
    r.append(u.subscription_url.as_str());
    r.append("`\n HAPP Crypto Link: `");
    r.append(u.happ_crypto_link.as_str());
    r.append("`");
    assert(r@ =~= profile_text_spec(*u));
    r
}

/// The message announcing a freshly created subscription, with its link.
pub open spec fn created_text_spec(url: Seq<char>) -> Seq<char> {
    "Ваша подписка создана\\! Ссылка: `"@ + url + "`"@
}

/// The message carrying a recreated subscription's new link.
pub open spec fn recreated_text_spec(url: Seq<char>) -> Seq<char> {
    "Новая ссылка на вашу подписку: `"@ + url + "`"@
}

/// The message carrying an existing subscription's link.
pub open spec fn sub_link_text_spec(url: Seq<char>) -> Seq<char> {
    "Ваша ссылка на подписку: `"@ + url + "`"@
}

/// Decides the reply of the create flow: the new subscription's link on
/// success, a stage-named error otherwise.
pub fn create_new_user_reply(created_url: Option<&str>, has_message: bool) -> (r: ReplyPlan)
    ensures
        r.edit_existing == has_message,
        r.markdown,
        created_url matches Some(url) ==> r.text@ == created_text_spec(url@) && r.keyboard
            is BackToMainMenu,
        created_url is None ==> r.text@ == error_text_spec("создании пользователя"@) && r.keyboard
            is BackToMainMenu,
{
    match created_url {
        Some(url) => {
            let mut text = "Ваша подписка создана\\! Ссылка: `".to_owned();
            text.append(url);
            text.append("`");
            assert(text@ =~= created_text_spec(url@));
            ReplyPlan {
                edit_existing: has_message,
                text,
                keyboard: ReplyKeyboard::BackToMainMenu,
                markdown: true,
            }
        },
        None => error_reply("создании пользователя", has_message),
    }
}

/// Decides the reply of the recreate flow from the outcomes of its three
/// backend calls — look the user up, delete, create anew — naming the first
/// stage that failed, or carrying the new link when all succeeded.
pub fn recreate_reply(
    found: bool,
    deleted: bool,
    created_url: Option<&str>,
    has_message: bool,
) -> (r: ReplyPlan)
    ensures
        r.edit_existing == has_message,
        r.markdown,
        !found ==> r.text@ == error_text_spec("получении информации о пользователе"@)
            && r.keyboard is BackToMainMenu,
        found && !deleted ==> r.text@ == error_text_spec("удалении пользователя"@) && r.keyboard
            is BackToMainMenu,
        found && deleted && created_url is None ==> r.text@ == error_text_spec(
            "создании пользователя"@,
        ) && r.keyboard is BackToMainMenu,
        found && deleted ==> (created_url matches Some(url) ==> r.text@ == recreated_text_spec(
            url@,
        ) && r.keyboard is BackToMainMenu),
{
    if !found {
        error_reply("получении информации о пользователе", has_message)
    } else if !deleted {
        error_reply("удалении пользователя", has_message)
    } else {
        match created_url {
            Some(url) => {
                let mut text = "Новая ссылка на вашу подписку: `".to_owned();
                text.append(url);
                text.append("`");
                assert(text@ =~= recreated_text_spec(url@));
                ReplyPlan {
                    edit_existing: has_message,
                    text,
                    keyboard: ReplyKeyboard::BackToMainMenu,
                    markdown: true,
                }
            },
            None => error_reply("создании пользователя", has_message),
        }
    }
}

/// Decides the reply of the back-to-main-menu flow: the menu again when the
/// user still exists, the greeting with the create button when they do not.
pub fn back_to_main_menu_reply(user_exists: bool, has_message: bool) -> (r: ReplyPlan)
    ensures
        r.edit_existing == has_message,
        !r.markdown,
        user_exists ==> r.text@ == "Главное меню:"@ && r.keyboard is MainMenu,
        !user_exists ==> r.text@ == "👋 Привет! Я помогу вам подключиться к GlebusVPN 🚀"@
            && r.keyboard is NewUserConfirmation,
{
    if user_exists {
        main_menu_reply(has_message)
    } else {
        ReplyPlan {
            edit_existing: has_message,
            text: Messages::ru().welcome_prompt(),
            keyboard: ReplyKeyboard::NewUserConfirmation,
            markdown: false,
        }
    }
}

/// Decides the reply of the profile flow: the full profile when the lookup
/// succeeded, a stage-named error otherwise.
pub fn show_about_me_reply(user: Option<&UserRecord>, has_message: bool) -> (r: ReplyPlan)
    ensures
        r.edit_existing == has_message,
        r.markdown,
        r.keyboard is BackToMainMenu,
        user matches Some(u) ==> r.text@ == profile_text_spec(*u),
        user is None ==> r.text@ == error_text_spec("получении информации о пользователе"@),
{
    match user {
        Some(u) => {
            ReplyPlan {
                edit_existing: has_message,
                text: profile_text(u),
                keyboard: ReplyKeyboard::BackToMainMenu,
                markdown: true,
            }
        },
        None => error_reply("получении информации о пользователе", has_message),
    }
}

/// Decides the reply of the delete flow from the outcomes of its two backend
/// calls, naming the first stage that failed.
pub fn delete_me_reply(found: bool, deleted: bool, has_message: bool) -> (r: ReplyPlan)
    ensures
        r.edit_existing == has_message,
        !found ==> r.text@ == error_text_spec("получении информации о пользователе"@)
            && r.keyboard is BackToMainMenu && r.markdown,
        found && !deleted ==> r.text@ == error_text_spec("удалении пользователя"@) && r.keyboard
            is BackToMainMenu && r.markdown,
        found && deleted ==> r.text@
            == "Ваша подписка успешно удалена, для повторного создания подписки используйте команду /start"@
            && r.keyboard is NoKeyboard && !r.markdown,
{
    if !found {
        error_reply("получении информации о пользователе", has_message)
    } else if !deleted {
        error_reply("удалении пользователя", has_message)
    } else {
        ReplyPlan {
            edit_existing: has_message,
            text: "Ваша подписка успешно удалена, для повторного создания подписки используйте команду /start".to_owned(),
            keyboard: ReplyKeyboard::NoKeyboard,
            markdown: false,
        }
    }
}

/// Decides the reply of the link flow: the subscription link when the lookup
/// succeeded, a stage-named error otherwise.
pub fn show_sub_link_reply(url: Option<&str>, has_message: bool) -> (r: ReplyPlan)
    ensures
        r.edit_existing == has_message,
        r.markdown,
        r.keyboard is BackToMainMenu,
        url matches Some(u) ==> r.text@ == sub_link_text_spec(u@),
        url is None ==> r.text@ == error_text_spec("получении ссылки на подписку"@),
{
    match url {
        Some(u) => {
            let mut text = "Ваша ссылка на подписку: `".to_owned();
            text.append(u);
            text.append("`");
            assert(text@ =~= sub_link_text_spec(u@));
            ReplyPlan {
                edit_existing: has_message,
                text,
                keyboard: ReplyKeyboard::BackToMainMenu,
                markdown: true,
            }
        },
        None => error_reply("получении ссылки на подписку", has_message),
    }
}

} // verus!
