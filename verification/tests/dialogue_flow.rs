use glebus_vpn_bot::dialogue::{
    cancel, classify_count, device_prompt, help, invalid_state, receive_device_count,
    receive_platform_selection, route_message, start, CountDecision, MessageRoute, State,
};
use glebus_vpn_bot::error::MyError;
use glebus_vpn_bot::provision::{ProvisioningError, ProvisioningStage};

fn assert_is_start(s: &State) {
    assert!(matches!(s, State::Start));
}

fn assert_is_receive_count(s: &State) {
    assert!(matches!(s, State::ReceiveDeviceCount));
}

#[test]
fn count_classification_bounds() {
    assert!(matches!(classify_count("1"), CountDecision::Begin(1)));
    assert!(matches!(classify_count("3"), CountDecision::Begin(3)));
    assert!(matches!(classify_count("5"), CountDecision::Begin(5)));
    assert!(matches!(classify_count("6"), CountDecision::OverLimit));
    assert!(matches!(classify_count("7"), CountDecision::OverLimit));
    assert!(matches!(classify_count("300"), CountDecision::OverLimit));
    assert!(matches!(
        classify_count("99999999999999999999999"),
        CountDecision::OverLimit
    ));
    assert!(matches!(classify_count("0"), CountDecision::Invalid));
    assert!(matches!(classify_count("007"), CountDecision::OverLimit));
    assert!(matches!(classify_count("002"), CountDecision::Begin(2)));
    assert!(matches!(classify_count(""), CountDecision::Invalid));
    assert!(matches!(classify_count("abc"), CountDecision::Invalid));
    assert!(matches!(classify_count("3a"), CountDecision::Invalid));
    assert!(matches!(classify_count(" 3"), CountDecision::Invalid));
    assert!(matches!(classify_count("-1"), CountDecision::Invalid));
}

#[test]
fn device_count_valid_starts_enrollment() {
    let o = receive_device_count("3");
    match &o.next {
        State::ReceiveDeviceInfo {
            total_devices,
            current_device,
            applications,
        } => {
            assert_eq!(*total_devices, 3);
            assert_eq!(*current_device, 1);
            assert!(applications.is_empty());
        }
        _ => panic!("expected ReceiveDeviceInfo"),
    }
    assert_eq!(o.prompt_device, Some(1));
    assert_eq!(o.messages.len(), 1);
    assert_eq!(
        o.messages[0],
        "🚀 Отлично! Давайте начнём вводить данные для каждого устройства. Пожалуйста, следуйте инструкциям ниже. 😊"
    );
}

#[test]
fn device_count_over_limit_keeps_state() {
    let o = receive_device_count("7");
    assert_is_receive_count(&o.next);
    assert_eq!(o.prompt_device, None);
    assert_eq!(o.messages.len(), 1);
    assert!(o.messages[0].starts_with("❌ Увы, максимальное количество устройств"));
}

#[test]
fn device_count_invalid_keeps_state() {
    let o = receive_device_count("abc");
    assert_is_receive_count(&o.next);
    assert_eq!(o.prompt_device, None);
    assert_eq!(o.messages.len(), 1);
    assert!(o.messages[0].contains("введите число от 1 до 5"));
}

#[test]
fn start_prompts_for_count() {
    let o = start();
    assert_is_receive_count(&o.next);
    assert_eq!(o.prompt_device, None);
    assert_eq!(o.messages.len(), 1);
    assert!(o.messages[0].contains("Введите количество устройств"));
}

#[test]
fn cancel_clears_session() {
    let o = cancel();
    assert_is_start(&o.next);
    assert_eq!(o.messages.len(), 1);
    assert_eq!(o.messages[0], "❌ Отменяем текущую операцию.");
}

#[test]
fn help_and_invalid_state_texts() {
    assert_eq!(
        help(),
        "Доступны следующие команды:\n\n/help — Показывает этот текст.\n/start — Запускает операцию добавления подключений к GlebusVPN."
    );
    assert_eq!(
        invalid_state(),
        "⚠️ Ой, кажется, вы ввели что-то непонятное. 😅\n\nИспользуйте /help для справки. 😊"
    );
}

#[test]
fn device_prompt_text() {
    assert_eq!(device_prompt(1), "📱 Устройство #1:");
    assert_eq!(device_prompt(2), "📱 Устройство #2:");
}

#[test]
fn enrollment_three_devices_end_to_end() {
    // /start
    let o = start();
    assert_is_receive_count(&o.next);
    // "3"
    let o = receive_device_count("3");
    let (total, current, apps) = match o.next {
        State::ReceiveDeviceInfo {
            total_devices,
            current_device,
            applications,
        } => (total_devices, current_device, applications),
        _ => panic!("expected ReceiveDeviceInfo"),
    };
    assert_eq!((total, current), (3, 1));
    assert_eq!(o.prompt_device, Some(1));
    // Android for device 1
    let o = receive_platform_selection(total, current, apps, "Android", Ok(()));
    let (total, current, apps) = match o.next {
        State::ReceiveDeviceInfo {
            total_devices,
            current_device,
            applications,
        } => (total_devices, current_device, applications),
        _ => panic!("expected ReceiveDeviceInfo"),
    };
    assert_eq!((total, current), (3, 2));
    assert_eq!(o.prompt_device, Some(2));
    assert_eq!(apps, vec!["Устройство 1: Android".to_string()]);
    // iOS for device 2
    let o = receive_platform_selection(total, current, apps, "iOS", Ok(()));
    let (total, current, apps) = match o.next {
        State::ReceiveDeviceInfo {
            total_devices,
            current_device,
            applications,
        } => (total_devices, current_device, applications),
        _ => panic!("expected ReceiveDeviceInfo"),
    };
    assert_eq!((total, current), (3, 3));
    assert_eq!(o.prompt_device, Some(3));
    assert_eq!(
        apps,
        vec![
            "Устройство 1: Android".to_string(),
            "Устройство 2: iOS".to_string()
        ]
    );
    // Windows for device 3: completion
    let o = receive_platform_selection(total, current, apps, "Windows", Ok(()));
    assert_is_start(&o.next);
    assert_eq!(o.prompt_device, None);
    assert_eq!(o.messages.len(), 1);
    assert!(o.messages[0].contains("Поздравляем"));
}

#[test]
fn enrollment_recovers_from_invalid_count() {
    // /start, then "7" (over limit), then "3" proceeds normally.
    let o = start();
    assert_is_receive_count(&o.next);
    let o = receive_device_count("7");
    assert_is_receive_count(&o.next);
    assert!(o.messages[0].contains("максимальное количество устройств"));
    let o = receive_device_count("3");
    match o.next {
        State::ReceiveDeviceInfo {
            total_devices,
            current_device,
            ..
        } => {
            assert_eq!(total_devices, 3);
            assert_eq!(current_device, 1);
        }
        _ => panic!("expected ReceiveDeviceInfo"),
    }
}

#[test]
fn enrollment_aborts_on_provisioning_failure() {
    // Device 2 of 3 fails: the session resets and device 3 is never prompted.
    let apps = vec!["Устройство 1: Android".to_string()];
    let o = receive_platform_selection(
        3,
        2,
        apps,
        "iOS",
        Err(ProvisioningError {
            stage: ProvisioningStage::AddingConnection,
        }),
    );
    assert_is_start(&o.next);
    assert_eq!(o.prompt_device, None);
    assert_eq!(o.messages.len(), 1);
    assert!(o.messages[0].contains("adding connection"));
    assert!(o.messages[0].contains("что-то пошло не так"));
}

#[test]
fn enrollment_abort_names_panel_stage() {
    let o = receive_platform_selection(
        2,
        1,
        Vec::new(),
        "Linux",
        Err(ProvisioningError {
            stage: ProvisioningStage::ServerPanel,
        }),
    );
    assert_is_start(&o.next);
    assert!(o.messages[0].contains("server panel"));
}

#[test]
fn default_state_is_start() {
    assert_is_start(&State::default());
}

#[test]
fn message_routing_by_state() {
    let info = State::ReceiveDeviceInfo {
        total_devices: 3,
        current_device: 1,
        applications: Vec::new(),
    };
    // /cancel cancels from any state.
    assert_eq!(route_message(&State::Start, "/cancel"), MessageRoute::Cancel);
    assert_eq!(
        route_message(&State::ReceiveDeviceCount, "/cancel"),
        MessageRoute::Cancel
    );
    assert_eq!(route_message(&info, "/cancel"), MessageRoute::Cancel);
    // /help and /start are commands only at the start.
    assert_eq!(route_message(&State::Start, "/help"), MessageRoute::Help);
    assert_eq!(
        route_message(&State::Start, "/start"),
        MessageRoute::StartEnrollment
    );
    assert_eq!(
        route_message(&State::ReceiveDeviceCount, "/help"),
        MessageRoute::DeviceCount
    );
    assert_eq!(route_message(&info, "/start"), MessageRoute::InvalidState);
    // While the count is awaited, any other text is read as the count.
    assert_eq!(
        route_message(&State::ReceiveDeviceCount, "3"),
        MessageRoute::DeviceCount
    );
    // Elsewhere, unrecognized input gets the guidance message.
    assert_eq!(route_message(&State::Start, "hello"), MessageRoute::InvalidState);
    assert_eq!(route_message(&info, "hello"), MessageRoute::InvalidState);
}

#[test]
fn error_detail_carries_description() {
    let e = MyError::Custom("User ID too large for i64".to_string());
    assert_eq!(e.detail(), "User ID too large for i64");
    let e = MyError::Str("Login failed with status: 403 Forbidden".to_string());
    assert_eq!(e.detail(), "Login failed with status: 403 Forbidden");
    let e = MyError::SerdeJson("bad json".to_string());
    assert_eq!(e.detail(), "bad json");
}
