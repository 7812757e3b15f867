use vstd::prelude::*;
use vstd::string::StringExecFns;

verus! {

/// Entry point of the bot's localized message catalogue.
pub struct Messages;

impl Messages {
    /// Returns the Russian message catalogue.
    pub fn ru() -> RussianMessages {
        RussianMessages
    }
}

/// The stage-qualified failure notice built around the name of the step that
/// failed.
pub open spec fn error_text_spec(context: Seq<char>) -> Seq<char> {
    "⚠️ Ой, кажется, в "@ + context
        + " что-то пошло не так. 😕\n\nПопробуйте ещё раз. 🔄\n\nЕсли это не поможет, то свяжитесь с администратором."@
}

/// The Russian texts the bot sends to users.
pub struct RussianMessages;

impl RussianMessages {
    /// Greeting shown to a user who has no subscription yet.
    pub fn welcome_prompt(&self) -> (r: String)
        ensures
            r@ == "👋 Привет! Я помогу вам подключиться к GlebusVPN 🚀"@,
    {
        "👋 Привет! Я помогу вам подключиться к GlebusVPN 🚀".to_owned()
    }

    /// Guidance shown when a message could not be understood.
    pub fn invalid_input(&self) -> (r: String)
        ensures
            r@ == "⚠️ Ой, кажется, вы ввели что-то непонятное. 😅\n\nИспользуйте /help для справки. 😊"@,
    {
        "⚠️ Ой, кажется, вы ввели что-то непонятное. 😅\n\nИспользуйте /help для справки. 😊".to_owned()
    }

    /// A stage-qualified failure notice; `context` names the step that failed.
    pub fn error(&self, context: &str) -> (r: String)
        ensures
            r@ == error_text_spec(context@),
    {
        let mut r = "⚠️ Ой, кажется, в ".to_owned();
        r.append(context);
        r.append(
            " что-то пошло не так. 😕\n\nПопробуйте ещё раз. 🔄\n\nЕсли это не поможет, то свяжитесь с администратором.",
        );
        assert(r@ =~= error_text_spec(context@));
        r
    }

    /// Label of the button that confirms creating a new subscription.
    pub fn new_user_confirmed(&self) -> (r: String)
        ensures
            r@ == "🚀 Давай!"@,
    {
        "🚀 Давай!".to_owned()
    }

    /// Label of the button that returns to the main menu.
    pub fn back(&self) -> (r: String)
        ensures
            r@ == "⬅️ Вернуться"@,
    {
        "⬅️ Вернуться".to_owned()
    }
}

} // verus!
