use vstd::prelude::*;

use crate::messages::{error_text_spec, Messages};
use crate::provision::{stage_name_spec, ProvisioningError};
use crate::strutil::{all_digits, dec_digits, dec_value, str_eq, u64_to_string};
use crate::types::Command;
use vstd::string::StringExecFns;

verus! {

/// Per-chat state of the device-enrollment dialogue.
#[derive(Clone)]
pub enum State {
    /// No enrollment in progress.
    Start,
    /// Waiting for the user to say how many devices to enroll.
    ReceiveDeviceCount,
    /// Collecting a platform choice for each device in turn.
    ReceiveDeviceInfo { total_devices: u8, current_device: u8, applications: Vec<String> },
}

impl State {
    /// The bookkeeping every reachable state keeps consistent: the device count
    /// stays within bounds, the index never runs past the count, and exactly
    /// the devices before the current one have a recorded platform.
    pub open spec fn wf(self) -> bool {
        match self {
            State::Start => true,
            State::ReceiveDeviceCount => true,
            State::ReceiveDeviceInfo { total_devices, current_device, applications } => {
                &&& 1 <= total_devices <= 5
                &&& 1 <= current_device <= total_devices
                &&& applications@.len() == current_device - 1
            },
        }
    }
}

impl Default for State {
    /// A chat that has never spoken is at the start of the dialogue.
    fn default() -> (r: Self)
        ensures
            r is Start,
    {
        State::Start
    }
}

/// What one handling step decides: the state the dialogue moves to, the texts
/// to send, and whether to show the platform keyboard for a device.
pub struct Outcome {
    pub next: State,
    pub messages: Vec<String>,
    pub prompt_device: Option<u8>,
}

/// Builds an outcome that sends a single message.
fn outcome1(next: State, text: String, prompt_device: Option<u8>) -> (o: Outcome)
    ensures
        o.next == next,
        o.prompt_device == prompt_device,
        o.messages.deep_view() == seq![text@],
{
    let mut messages: Vec<String> = Vec::new();
    messages.push(text);
    proof {
        assert(messages.deep_view() =~~= seq![text@]);
    }
    Outcome { next, messages, prompt_device }
}

/// Handles `/start`: greets the user and asks for the device count.
pub fn start() -> (o: Outcome)
    ensures
        o.next is ReceiveDeviceCount,
        o.prompt_device is None,
        o.messages.deep_view() == seq![
            "👋 Привет! Добро пожаловать в наш бот. Мы поможем вам подключиться к GlebusVPN. 🚀\n\nВведите количество устройств, для которых вы хотите оформить доступ (от 1 до 5):"@,
        ],
{
    outcome1(
        State::ReceiveDeviceCount,
        "👋 Привет! Добро пожаловать в наш бот. Мы поможем вам подключиться к GlebusVPN. 🚀\n\nВведите количество устройств, для которых вы хотите оформить доступ (от 1 до 5):".to_owned(),
        None,
    )
}

/// Handles `/help`: the command list; the dialogue state is left as it is.
pub fn help() -> (r: String)
    ensures
        r@ == "Доступны следующие команды:\n\n/help — Показывает этот текст.\n/start — Запускает операцию добавления подключений к GlebusVPN."@,
{
    Command::descriptions()
}

/// Handles `/cancel`: acknowledges and clears the dialogue, from any state.
pub fn cancel() -> (o: Outcome)
    ensures
        o.next is Start,
        o.prompt_device is None,
        o.messages.deep_view() == seq!["❌ Отменяем текущую операцию."@],
{
    outcome1(State::Start, "❌ Отменяем текущую операцию.".to_owned(), None)
}

/// The guidance sent for a message that fits no state; the state is left as it is.
pub fn invalid_state() -> (r: String)
    ensures
        r@ == "⚠️ Ой, кажется, вы ввели что-то непонятное. 😅\n\nИспользуйте /help для справки. 😊"@,
{
    Messages::ru().invalid_input()
}

/// The message asks for a valid device count: a digit string denoting 1 to 5.
pub open spec fn valid_count(s: Seq<char>) -> bool {
    s.len() > 0 && all_digits(s) && 1 <= dec_value(s) <= 5
}

/// The message is a number over the device limit.
pub open spec fn over_limit_count(s: Seq<char>) -> bool {
    s.len() > 0 && all_digits(s) && dec_value(s) > 5
}

/// How a device-count message is classified.
#[derive(Clone, Copy, PartialEq, Eq, Structural)]
pub enum CountDecision {
    /// Begin enrollment for this many devices.
    Begin(u8),
    /// A number above the limit of five.
    OverLimit,
    /// Not a positive number.
    Invalid,
}

/// Classifies a device-count message.
pub fn classify_count(input: &str) -> (d: CountDecision)
    ensures
        valid_count(input@) ==> d == CountDecision::Begin(dec_value(input@) as u8),
        over_limit_count(input@) ==> d is OverLimit,
        !valid_count(input@) && !over_limit_count(input@) ==> d is Invalid,
{
    let len = input.unicode_len();
    if len == 0 {
        return CountDecision::Invalid;
    }
    let mut i: usize = 0;
    let mut val: u64 = 0;
    let mut ok = true;
    while i < len && ok
        invariant
            i <= len,
            len == input@.len(),
            ok ==> all_digits(input@.take(i as int)),
            ok && val <= 5 ==> val == dec_value(input@.take(i as int)),
            ok && val == 6 ==> dec_value(input@.take(i as int)) > 5,
            ok ==> val <= 6,
            !ok ==> !all_digits(input@),
        decreases len - i,
    {
        let c = input.get_char(i);
        let u = c as u32;
        proof {
            assert(input@.take(i as int + 1).drop_last() =~= input@.take(i as int));
            assert(input@.take(i as int + 1).last() == input@[i as int]);
        }
        if 48 <= u && u <= 57 {
            let d = (u - 48) as u64;
            let grown = val * 10 + d;
            val = if grown > 5 {
                6
            } else {
                grown
            };
        } else {
            assert(!all_digits(input@)) by {
                assert(!(48 <= input@[i as int] as int <= 57));
            }
            ok = false;
        }
        i = i + 1;
    }
    if !ok {
        CountDecision::Invalid
    } else {
        assert(input@.take(len as int) =~= input@);
        if val == 0 {
            CountDecision::Invalid
        } else if val <= 5 {
            CountDecision::Begin(val as u8)
        } else {
            CountDecision::OverLimit
        }
    }
}

/// Handles the device-count message: a count of 1 to 5 starts per-device
/// platform collection; a larger number is refused with an over-limit notice;
/// anything else is refused with format guidance. Only a valid count changes
/// the state.
pub fn receive_device_count(input: &str) -> (o: Outcome)
    ensures
        o.next.wf(),
        valid_count(input@) ==> (o.next matches State::ReceiveDeviceInfo {
            total_devices,
            current_device,
            applications,
        } && total_devices == dec_value(input@) && current_device == 1 && applications@.len()
            == 0),
        valid_count(input@) ==> o.messages.deep_view() == seq![
            "🚀 Отлично! Давайте начнём вводить данные для каждого устройства. Пожалуйста, следуйте инструкциям ниже. 😊"@,
        ] && o.prompt_device == Some(1u8),
        over_limit_count(input@) ==> o.next is ReceiveDeviceCount && o.prompt_device is None
            && o.messages.deep_view() == seq![
            "❌ Увы, максимальное количество устройств для оформления — 5. 😔\n\nЕсли вам нужно больше, обратитесь к администратору @LineGM. Спасибо за понимание! 🙌"@,
        ],
        !valid_count(input@) && !over_limit_count(input@) ==> o.next is ReceiveDeviceCount
            && o.prompt_device is None && o.messages.deep_view() == seq![
            "⚠️ Ой, кажется, вы ввели что-то непонятное. 😅\n\nПопробуйте ещё раз! Пожалуйста, введите число от 1 до 5. 🚀"@,
        ],
{
    match classify_count(input) {
        CountDecision::Begin(count) => {
            let next = State::ReceiveDeviceInfo {
                total_devices: count,
                current_device: 1,
                applications: Vec::new(),
            };
            outcome1(
                next,
                "🚀 Отлично! Давайте начнём вводить данные для каждого устройства. Пожалуйста, следуйте инструкциям ниже. 😊".to_owned(),
                Some(1),
            )
        },
        CountDecision::OverLimit => {
            outcome1(
                State::ReceiveDeviceCount,
                "❌ Увы, максимальное количество устройств для оформления — 5. 😔\n\nЕсли вам нужно больше, обратитесь к администратору @LineGM. Спасибо за понимание! 🙌".to_owned(),
                None,
            )
        },
        CountDecision::Invalid => {
            outcome1(
                State::ReceiveDeviceCount,
                "⚠️ Ой, кажется, вы ввели что-то непонятное. 😅\n\nПопробуйте ещё раз! Пожалуйста, введите число от 1 до 5. 🚀".to_owned(),
                None,
            )
        },
    }
}

/// Where the router sends an inbound message, given the chat's dialogue state.
#[derive(Clone, Copy, PartialEq, Eq, Structural, Debug)]
pub enum MessageRoute {
    /// Show the command list.
    Help,
    /// Begin the enrollment flow.
    StartEnrollment,
    /// Cancel whatever is in progress.
    Cancel,
    /// Read the text as the device count.
    DeviceCount,
    /// Nothing fits: send the guidance message.
    InvalidState,
}

/// Routes an inbound message: `/cancel` cancels from any state; `/help` and
/// `/start` are commands only at the start of the dialogue; while the device
/// count is awaited every other text is read as the count; anything else gets
/// the guidance message.
pub fn route_message(state: &State, text: &str) -> (r: MessageRoute)
    ensures
        text@ == "/cancel"@ ==> r is Cancel,
        text@ != "/cancel"@ && *state is Start && text@ == "/help"@ ==> r is Help,
        text@ != "/cancel"@ && *state is Start && text@ == "/start"@ ==> r is StartEnrollment,
        text@ != "/cancel"@ && (!(*state is Start) || (text@ != "/help"@ && text@ != "/start"@))
            ==> (*state is ReceiveDeviceCount ==> r is DeviceCount),
        text@ != "/cancel"@ && (!(*state is Start) || (text@ != "/help"@ && text@ != "/start"@))
            ==> (!(*state is ReceiveDeviceCount) ==> r is InvalidState),
{
    proof {
        reveal_strlit("/cancel");
        reveal_strlit("/help");
        reveal_strlit("/start");
        assert(("/cancel"@).len() == 7);
        assert(("/help"@).len() == 5);
        assert(("/start"@).len() == 6);
    }
    if str_eq(text, "/cancel") {
        return MessageRoute::Cancel;
    }
    match state {
        State::Start => {
            if str_eq(text, "/help") {
                MessageRoute::Help
            } else if str_eq(text, "/start") {
                MessageRoute::StartEnrollment
            } else {
                MessageRoute::InvalidState
            }
        },
        State::ReceiveDeviceCount => MessageRoute::DeviceCount,
        State::ReceiveDeviceInfo { .. } => MessageRoute::InvalidState,
    }
}

/// The prompt asking for the platform of one device.
pub fn device_prompt(device_num: u8) -> (r: String)
    ensures
        r@ == "📱 Устройство #"@ + dec_digits(device_num as nat) + ":"@,
{
    let mut r = "📱 Устройство #".to_owned();
    let num = u64_to_string(device_num as u64);
    r.append(num.as_str());
    r.append(":");
    assert(r@ =~= "📱 Устройство #"@ + dec_digits(device_num as nat) + ":"@);
    r
}

/// The line recorded for one device once its platform is chosen.
pub open spec fn device_entry_spec(device: nat, platform: Seq<char>) -> Seq<char> {
    "Устройство "@ + dec_digits(device) + ": "@ + platform
}

/// Handles one platform selection. The choice is recorded; then, as the
/// provisioning step decided the device's fate: on failure the whole enrollment
/// aborts to the start at once with a stage-named error, never prompting for
/// the remaining devices; on success either the next device is prompted — the
/// index advancing by exactly one with the records staying one behind it — or,
/// after the last device, the enrollment completes and the dialogue clears.
pub fn receive_platform_selection(
    total_devices: u8,
    current_device: u8,
    applications: Vec<String>,
    platform: &str,
    provision: Result<(), ProvisioningError>,
) -> (o: Outcome)
    requires
        1 <= total_devices <= 5,
        1 <= current_device <= total_devices,
        applications@.len() == current_device - 1,
    ensures
        o.next.wf(),
        provision matches Err(e) ==> o.next is Start && o.prompt_device is None
            && o.messages.deep_view() == seq![error_text_spec(stage_name_spec(e.stage))],
        provision is Ok && current_device < total_devices ==> (o.next
            matches State::ReceiveDeviceInfo { total_devices: t, current_device: c, applications: a }
            && t == total_devices && c == current_device + 1 && a.deep_view()
            == applications.deep_view().push(
            device_entry_spec(current_device as nat, platform@),
        ) && o.prompt_device == Some((current_device + 1) as u8) && o.messages@.len() == 0),
        provision is Ok && current_device == total_devices ==> o.next is Start
            && o.prompt_device is None && o.messages.deep_view() == seq![
            "🎉 Поздравляем! Ваша заявка успешно сформирована. ✅\n\nСпасибо за использование нашего сервиса! 🙏"@,
        ],
{
    let mut applications = applications;
    let ghost apps0: Seq<Seq<char>> = applications.deep_view();
    let mut entry = "Устройство ".to_owned();
    let num = u64_to_string(current_device as u64);
    entry.append(num.as_str());
    entry.append(": ");
    entry.append(platform);
    assert(entry@ =~= device_entry_spec(current_device as nat, platform@));
    applications.push(entry);
    match provision {
        Err(e) => {
            let stage = e.stage.text();
            let text = Messages::ru().error(stage.as_str());
            outcome1(State::Start, text, None)
        },
        Ok(()) => {
            if current_device < total_devices {
                let next_device = current_device + 1;
                proof {
                    assert(applications.deep_view() =~~= apps0.push(
                        device_entry_spec(current_device as nat, platform@),
                    ));
                }
                Outcome {
                    next: State::ReceiveDeviceInfo {
                        total_devices,
                        current_device: next_device,
                        applications,
                    },
                    messages: Vec::new(),
                    prompt_device: Some(next_device),
                }
            } else {
                outcome1(
                    State::Start,
                    "🎉 Поздравляем! Ваша заявка успешно сформирована. ✅\n\nСпасибо за использование нашего сервиса! 🙏".to_owned(),
                    None,
                )
            }
        },
    }
}

} // verus!
