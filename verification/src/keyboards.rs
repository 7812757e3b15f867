use vstd::prelude::*;

use crate::messages::Messages;
use vstd::string::StringExecFns;

verus! {

/// One inline button: a label and the callback token it sends back.
pub struct Button {
    pub label: String,
    pub data: String,
}

/// An inline keyboard: rows of buttons.
pub struct Keyboard {
    pub rows: Vec<Vec<Button>>,
}

/// Builds a one-button row.
fn row1(label: String, data: String) -> (r: Vec<Button>)
    ensures
        r@.len() == 1,
        r@[0].label@ == label@,
        r@[0].data@ == data@,
{
    let mut row: Vec<Button> = Vec::new();
    row.push(Button { label, data });
    row
}

/// The main menu shown to a user with a subscription: one action per row.
pub fn main_menu() -> (r: Keyboard)
    ensures
        r.rows@.len() == 4,
        r.rows@[0]@.len() == 1 && r.rows@[0]@[0].label@ == "Информация обо мне"@
            && r.rows@[0]@[0].data@ == "show_about_me"@,
        r.rows@[1]@.len() == 1 && r.rows@[1]@[0].label@ == "Ссылка на подписку"@
            && r.rows@[1]@[0].data@ == "show_sub_link"@,
        r.rows@[2]@.len() == 1 && r.rows@[2]@[0].label@ == "Пересоздать подписку"@
            && r.rows@[2]@[0].data@ == "recreate_sub_link"@,
        r.rows@[3]@.len() == 1 && r.rows@[3]@[0].label@ == "Удалить подписку"@
            && r.rows@[3]@[0].data@ == "delete_me"@,
{
    let mut rows: Vec<Vec<Button>> = Vec::new();
    rows.push(row1("Информация обо мне".to_owned(), "show_about_me".to_owned()));
    rows.push(row1("Ссылка на подписку".to_owned(), "show_sub_link".to_owned()));
    rows.push(row1("Пересоздать подписку".to_owned(), "recreate_sub_link".to_owned()));
    rows.push(row1("Удалить подписку".to_owned(), "delete_me".to_owned()));
    Keyboard { rows }
}

/// The single button that returns to the main menu.
pub fn back_to_main_menu() -> (r: Keyboard)
    ensures
        r.rows@.len() == 1,
        r.rows@[0]@.len() == 1 && r.rows@[0]@[0].label@ == "⬅️ Вернуться"@ && r.rows@[0]@[0].data@
            == "back_to_main_menu"@,
{
    let label = Messages::ru().back();
    let mut rows: Vec<Vec<Button>> = Vec::new();
    rows.push(row1(label, "back_to_main_menu".to_owned()));
    Keyboard { rows }
}

/// The single button that confirms creating a new subscription.
pub fn new_user_confirmation() -> (r: Keyboard)
    ensures
        r.rows@.len() == 1,
        r.rows@[0]@.len() == 1 && r.rows@[0]@[0].label@ == "🚀 Давай!"@ && r.rows@[0]@[0].data@
            == "create_new_user"@,
{
    let label = Messages::ru().new_user_confirmed();
    let mut rows: Vec<Vec<Button>> = Vec::new();
    rows.push(row1(label, "create_new_user".to_owned()));
    Keyboard { rows }
}

/// The platform choices offered for each device; each button sends its own
/// label back as the callback token.
pub fn platform_keyboard() -> (r: Keyboard)
    ensures
        r.rows@.len() == 1,
        r.rows@[0]@.len() == 5,
        r.rows@[0]@[0].label@ == "Windows"@ && r.rows@[0]@[0].data@ == "Windows"@,
        r.rows@[0]@[1].label@ == "Android"@ && r.rows@[0]@[1].data@ == "Android"@,
        r.rows@[0]@[2].label@ == "Linux"@ && r.rows@[0]@[2].data@ == "Linux"@,
        r.rows@[0]@[3].label@ == "MacOS"@ && r.rows@[0]@[3].data@ == "MacOS"@,
        r.rows@[0]@[4].label@ == "iOS"@ && r.rows@[0]@[4].data@ == "iOS"@,
{
    let mut row: Vec<Button> = Vec::new();
    row.push(Button { label: "Windows".to_owned(), data: "Windows".to_owned() });
    row.push(Button { label: "Android".to_owned(), data: "Android".to_owned() });
    row.push(Button { label: "Linux".to_owned(), data: "Linux".to_owned() });
    row.push(Button { label: "MacOS".to_owned(), data: "MacOS".to_owned() });
    row.push(Button { label: "iOS".to_owned(), data: "iOS".to_owned() });
    let mut rows: Vec<Vec<Button>> = Vec::new();
    rows.push(row);
    Keyboard { rows }
}

} // verus!
