use uestc_power_monitor::api::PowerInfo;
use uestc_power_monitor::clock::{LocalDate, LocalTime};
use uestc_power_monitor::config::{NotifyConfig, NotifyType, SmtpEncryption};
use uestc_power_monitor::event::NotificationEvent;
use uestc_power_monitor::notify::NotificationManager;
use uestc_power_monitor::registry::{
    create_notifier, create_notifiers, lists_kind, topic_host_to_resolve,
};
use uestc_power_monitor::sink::{
    fan_out, ConsoleNotifier, Delivery, EmailNotifier, EmergencyRepeat, Notifier, NtfyNotifier,
    PushoverNotifier, Sink, TelegramNotifier, WebhookNotifier,
};
use uestc_power_monitor::topic_url::{
    check_topic_url, host_name_of, host_to_resolve, is_addr_forbidden, is_any_forbidden,
    is_name_forbidden, is_v4_forbidden, judge_topic_url, lower_cased, to_lower_case, HostAddr,
    ParsedUrl, TopicUrlError, UrlHost,
};

fn reading() -> PowerInfo {
    PowerInfo {
        code: 0,
        message: String::from("ok"),
        remaining_energy: 2691,
        remaining_money: 444,
        meter_room_id: String::from("1001"),
        room_display_name: String::from("220407"),
        room_id: String::from("77"),
        building_id: String::from("22"),
        campus_id: String::from("1"),
        room_number: String::from("407"),
    }
}

fn noon() -> LocalTime {
    LocalTime {
        epoch_millis: 1_709_640_000_000,
        date: LocalDate { year: 2024, month: 3, day: 5 },
        hour: 12,
        minute: 0,
        second: 7,
    }
}

fn pair(name: &str, value: &str) -> (String, String) {
    (String::from(name), String::from(value))
}

fn v4(a: u8, b: u8, c: u8, d: u8) -> HostAddr {
    HostAddr::V4(u32::from_be_bytes([a, b, c, d]))
}

fn full_policy() -> NotifyConfig {
    NotifyConfig {
        enabled: true,
        threshold: 500,
        cooldown_minutes: 60,
        notify_types: vec![
            NotifyType::Console,
            NotifyType::Webhook,
            NotifyType::Telegram,
            NotifyType::Pushover,
            NotifyType::Ntfy,
            NotifyType::Email,
        ],
        webhook_url: String::from("https://hooks.example.org/power"),
        telegram_bot_token: String::from("123:abc"),
        telegram_chat_id: String::from("-1001"),
        pushover_api_token: String::from("tok"),
        pushover_user_key: String::from("usr"),
        pushover_priority: 1,
        pushover_retry: 60,
        pushover_expire: 3600,
        ntfy_topic_url: String::from("https://ntfy.example.org/power"),
        ntfy_priority: 4,
        smtp_server: String::from("smtp.example.org"),
        smtp_port: 587,
        smtp_username: String::from("monitor"),
        smtp_password: String::from("secret"),
        smtp_encryption: SmtpEncryption::Tls,
        email_from: String::from("monitor@example.org"),
        email_to: String::from("a@example.org, b@example.org"),
        ..NotifyConfig::default()
    }
}

#[test]
fn console_prints_one_line() {
    let low = NotificationEvent::LowBalance(reading());
    assert_eq!(
        ConsoleNotifier.notify(&low, &noon()),
        Delivery::Print {
            line: String::from(
                "⚠️ [Low Power Warning] Room: 220407, Money: 4.44 CNY, Energy: 26.91 kWh, Time: 2024-03-05 12:00:07"
            ),
        }
    );
    let failed = NotificationEvent::LoginFailure(String::from("locked"));
    assert_eq!(
        ConsoleNotifier.notify(&failed, &noon()),
        Delivery::Print {
            line: String::from("❌ [Login Failed] Error: locked, Time: 2024-03-05 12:00:07"),
        }
    );
}

#[test]
fn webhook_posts_readings_and_passes_over_the_rest() {
    let hook = WebhookNotifier::new(String::from("https://hooks.example.org/power"));
    assert_eq!(
        hook.notify(&NotificationEvent::LowBalance(reading()), &noon()),
        Delivery::PostReading {
            url: String::from("https://hooks.example.org/power"),
            event_type: String::from("low_balance"),
            reading: reading(),
        }
    );
    assert_eq!(
        hook.notify(&NotificationEvent::Heartbeat(reading()), &noon()),
        Delivery::PostReading {
            url: String::from("https://hooks.example.org/power"),
            event_type: String::from("heartbeat"),
            reading: reading(),
        }
    );
    assert_eq!(
        hook.notify(&NotificationEvent::LoginFailure(String::from("x")), &noon()),
        Delivery::Nothing
    );
    assert_eq!(
        hook.notify(&NotificationEvent::ConsecutiveFetchFailures(String::from("x")), &noon()),
        Delivery::Nothing
    );
}

#[test]
fn telegram_posts_chat_and_text() {
    let bot = TelegramNotifier::new(String::from("123:abc"), String::from("-1001"));
    assert_eq!(
        bot.notify(&NotificationEvent::Heartbeat(reading()), &noon()),
        Delivery::PostForm {
            url: String::from("https://api.telegram.org/bot123:abc/sendMessage"),
            fields: vec![
                pair("chat_id", "-1001"),
                pair(
                    "text",
                    "ℹ️ [Daily Report]\nRoom: 220407\nMoney: 4.44 CNY\nEnergy: 26.91 kWh\nTime: 2024-03-05 12:00:07"
                ),
            ],
        }
    );
}

#[test]
fn pushover_adds_the_repeat_only_to_emergencies() {
    let event = NotificationEvent::LoginFailure(String::from("locked"));
    let calm = PushoverNotifier {
        api_token: String::from("tok"),
        user_key: String::from("usr"),
        priority: -1,
        emergency: None,
    };
    assert_eq!(
        calm.notify(&event, &noon()),
        Delivery::PostForm {
            url: String::from("https://api.pushover.net/1/messages.json"),
            fields: vec![
                pair("token", "tok"),
                pair("user", "usr"),
                pair("title", "❌ [Login Failed]"),
                pair("message", "Error: locked\nTime: 2024-03-05 12:00:07"),
                pair("priority", "-1"),
            ],
        }
    );
    let urgent = PushoverNotifier {
        api_token: String::from("tok"),
        user_key: String::from("usr"),
        priority: 2,
        emergency: Some(EmergencyRepeat { retry: 30, expire: 10800 }),
    };
    assert_eq!(
        urgent.notify(&event, &noon()),
        Delivery::PostForm {
            url: String::from("https://api.pushover.net/1/messages.json"),
            fields: vec![
                pair("token", "tok"),
                pair("user", "usr"),
                pair("title", "❌ [Login Failed]"),
                pair("message", "Error: locked\nTime: 2024-03-05 12:00:07"),
                pair("priority", "2"),
                pair("retry", "30"),
                pair("expire", "10800"),
            ],
        }
    );
}

#[test]
fn ntfy_publishes_title_and_body_with_its_priority() {
    let topic = NtfyNotifier { topic_url: String::from("https://ntfy.example.org/power"), priority: 4 };
    assert_eq!(
        topic.notify(&NotificationEvent::LoginFailure(String::from("locked")), &noon()),
        Delivery::PostText {
            url: String::from("https://ntfy.example.org/power"),
            headers: vec![pair("Priority", "4")],
            body: String::from("❌ [Login Failed]\nError: locked\nTime: 2024-03-05 12:00:07"),
        }
    );
}

#[test]
fn email_goes_to_every_recipient() {
    let mail = EmailNotifier {
        server: String::from("smtp.example.org"),
        port: 465,
        username: String::from("monitor"),
        password: String::from("secret"),
        encryption: SmtpEncryption::Tls,
        from: String::from("monitor@example.org"),
        recipients: vec![String::from("a@example.org"), String::from("b@example.org")],
    };
    assert_eq!(
        mail.notify(&NotificationEvent::LowBalance(reading()), &noon()),
        Delivery::Mail {
            from: String::from("monitor@example.org"),
            recipients: vec![String::from("a@example.org"), String::from("b@example.org")],
            subject: String::from("⚠️ [Low Power Warning]"),
            body: String::from(
                "Room: 220407\nMoney: 4.44 CNY\nEnergy: 26.91 kWh\nTime: 2024-03-05 12:00:07"
            ),
        }
    );
}

#[test]
fn sinks_know_their_kind_and_answer_like_their_channel() {
    let hook = WebhookNotifier::new(String::from("https://hooks.example.org/power"));
    let sink = Sink::Webhook(hook.clone());
    assert_eq!(sink.kind(), NotifyType::Webhook);
    let event = NotificationEvent::Heartbeat(reading());
    assert_eq!(sink.notify(&event, &noon()), hook.notify(&event, &noon()));
    assert_eq!(Sink::Console(ConsoleNotifier).kind(), NotifyType::Console);
    assert_eq!(
        Sink::Console(ConsoleNotifier).notify(&event, &noon()),
        ConsoleNotifier.notify(&event, &noon())
    );
}

#[test]
fn every_channel_gets_every_alert() {
    let sinks = vec![
        Sink::Console(ConsoleNotifier),
        Sink::Webhook(WebhookNotifier::new(String::from("https://hooks.example.org/power"))),
        Sink::Telegram(TelegramNotifier::new(String::from("t"), String::from("c"))),
    ];
    let failed = NotificationEvent::LoginFailure(String::from("locked"));
    let deliveries = fan_out(&sinks, &failed, &noon());
    assert_eq!(deliveries.len(), 3);
    assert_eq!(deliveries[0], sinks[0].notify(&failed, &noon()));
    assert_eq!(deliveries[1], Delivery::Nothing);
    assert_eq!(deliveries[2], sinks[2].notify(&failed, &noon()));
    assert_eq!(fan_out(&Vec::new(), &failed, &noon()), vec![]);
}

#[test]
fn engine_plans_one_delivery_per_alert_and_channel() {
    let mut config = full_policy();
    config.notify_types = vec![NotifyType::Webhook, NotifyType::Console];
    let manager = NotificationManager::new(config, &Vec::new()).expect("two channels");
    let events = vec![
        NotificationEvent::Heartbeat(reading()),
        NotificationEvent::LoginFailure(String::from("locked")),
    ];
    let plan = manager.deliveries_at(&events, &noon());
    assert_eq!(plan.len(), 2);
    assert_eq!(plan[0].len(), 2);
    assert_eq!(plan[1].len(), 2);
    assert_eq!(plan[0][0], manager.active_sinks()[0].notify(&events[0], &noon()));
    assert_eq!(plan[0][1], ConsoleNotifier.notify(&events[0], &noon()));
    assert_eq!(plan[1][0], Delivery::Nothing);
    assert_eq!(plan[1][1], ConsoleNotifier.notify(&events[1], &noon()));
    assert_eq!(manager.deliveries_at(&Vec::new(), &noon()), Vec::<Vec<Delivery>>::new());

    let by_clock = manager.deliveries(&events);
    assert_eq!(by_clock.len(), 2);
    assert_eq!(by_clock[1][0], Delivery::Nothing);
    match &by_clock[1][1] {
        Delivery::Print { line } => {
            assert!(line.starts_with("❌ [Login Failed] Error: locked, Time: 2"));
            assert_eq!(line.len(), "❌ [Login Failed] Error: locked, Time: 2024-03-05 12:00:07".len());
        }
        other => panic!("the console prints, it does not {:?}", other),
    }
}

#[test]
fn registry_builds_every_channel_that_has_what_it_needs() {
    let config = full_policy();
    let sinks = create_notifiers(&config, &vec![v4(93, 184, 216, 34)]);
    assert_eq!(
        sinks,
        vec![
            Sink::Console(ConsoleNotifier),
            Sink::Webhook(WebhookNotifier { url: String::from("https://hooks.example.org/power") }),
            Sink::Telegram(TelegramNotifier {
                bot_token: String::from("123:abc"),
                chat_id: String::from("-1001"),
            }),
            Sink::Pushover(PushoverNotifier {
                api_token: String::from("tok"),
                user_key: String::from("usr"),
                priority: 1,
                emergency: None,
            }),
            Sink::Ntfy(NtfyNotifier {
                topic_url: String::from("https://ntfy.example.org/power"),
                priority: 4,
            }),
            Sink::Email(EmailNotifier {
                server: String::from("smtp.example.org"),
                port: 587,
                username: String::from("monitor"),
                password: String::from("secret"),
                encryption: SmtpEncryption::Tls,
                from: String::from("monitor@example.org"),
                recipients: vec![String::from("a@example.org"), String::from("b@example.org")],
            }),
        ]
    );
}

#[test]
fn channel_without_its_credential_is_left_out_in_every_order() {
    let mut config = full_policy();
    config.telegram_chat_id = String::new();
    let orders = [
        vec![NotifyType::Telegram, NotifyType::Console, NotifyType::Webhook],
        vec![NotifyType::Console, NotifyType::Telegram, NotifyType::Webhook],
        vec![NotifyType::Webhook, NotifyType::Console, NotifyType::Telegram],
        vec![NotifyType::Telegram],
        vec![NotifyType::Telegram, NotifyType::Telegram, NotifyType::Email],
    ];
    for order in orders {
        config.notify_types = order.clone();
        let sinks = create_notifiers(&config, &Vec::new());
        assert!(sinks.iter().all(|s| s.kind() != NotifyType::Telegram));
        let expected: Vec<NotifyType> =
            order.into_iter().filter(|k| *k != NotifyType::Telegram).collect();
        let built: Vec<NotifyType> = sinks.iter().map(|s| s.kind()).collect();
        assert_eq!(built, expected);
    }
}

#[test]
fn each_credential_is_required() {
    let none = Vec::new();
    let full = full_policy();
    assert_eq!(
        create_notifier(&full, NotifyType::Console, &none),
        Some(Sink::Console(ConsoleNotifier))
    );
    // The console needs no credential, only a policy that is switched on.
    let bare = NotifyConfig { enabled: true, ..NotifyConfig::default() };
    assert_eq!(
        create_notifier(&bare, NotifyType::Console, &none),
        Some(Sink::Console(ConsoleNotifier))
    );
    assert_eq!(create_notifier(&NotifyConfig::default(), NotifyType::Console, &none), None);

    assert!(create_notifier(&full, NotifyType::Webhook, &none).is_some());
    let mut config = full_policy();
    config.webhook_url = String::new();
    assert_eq!(create_notifier(&config, NotifyType::Webhook, &none), None);

    assert!(create_notifier(&full, NotifyType::Telegram, &none).is_some());
    let mut config = full_policy();
    config.telegram_bot_token = String::new();
    assert_eq!(create_notifier(&config, NotifyType::Telegram, &none), None);
    let mut config = full_policy();
    config.telegram_chat_id = String::new();
    assert_eq!(create_notifier(&config, NotifyType::Telegram, &none), None);

    assert!(create_notifier(&full, NotifyType::Pushover, &none).is_some());
    let mut config = full_policy();
    config.pushover_api_token = String::new();
    assert_eq!(create_notifier(&config, NotifyType::Pushover, &none), None);
    let mut config = full_policy();
    config.pushover_user_key = String::new();
    assert_eq!(create_notifier(&config, NotifyType::Pushover, &none), None);

    assert!(create_notifier(&full, NotifyType::Email, &none).is_some());
    let mut config = full_policy();
    config.email_to = String::from(" , ");
    assert_eq!(create_notifier(&config, NotifyType::Email, &none), None);
    let mut config = full_policy();
    config.smtp_server = String::new();
    assert_eq!(create_notifier(&config, NotifyType::Email, &none), None);
    let mut config = full_policy();
    config.smtp_port = 0;
    assert_eq!(create_notifier(&config, NotifyType::Email, &none), None);
    let mut config = full_policy();
    config.email_from = String::new();
    assert_eq!(create_notifier(&config, NotifyType::Email, &none), None);
}

#[test]
fn policy_that_is_switched_off_builds_no_channel() {
    let public = vec![v4(93, 184, 216, 34)];
    let mut config = full_policy();
    config.enabled = false;
    let kinds = [
        NotifyType::Console,
        NotifyType::Webhook,
        NotifyType::Telegram,
        NotifyType::Pushover,
        NotifyType::Ntfy,
        NotifyType::Email,
    ];
    for kind in kinds {
        assert_eq!(create_notifier(&config, kind, &public), None, "{:?}", kind);
    }
    assert_eq!(create_notifiers(&config, &public), vec![]);
    config.notify_types = vec![NotifyType::Console];
    assert_eq!(create_notifiers(&config, &public), vec![]);
    assert_eq!(create_notifiers(&NotifyConfig::default(), &Vec::new()), vec![]);
    assert!(NotificationManager::new(config.clone(), &public).is_none());

    // Switched on again, the same policy builds its channel.
    config.enabled = true;
    assert_eq!(create_notifiers(&config, &public), vec![Sink::Console(ConsoleNotifier)]);
}

#[test]
fn kind_listed_twice_is_built_once() {
    let mut config = full_policy();
    config.notify_types = vec![
        NotifyType::Webhook,
        NotifyType::Console,
        NotifyType::Webhook,
        NotifyType::Console,
    ];
    let kinds: Vec<NotifyType> =
        create_notifiers(&config, &Vec::new()).iter().map(|s| s.kind()).collect();
    assert_eq!(kinds, vec![NotifyType::Webhook, NotifyType::Console]);
    config.notify_types = Vec::new();
    assert_eq!(create_notifiers(&config, &Vec::new()), vec![]);
}

#[test]
fn priorities_are_brought_into_range() {
    let none = Vec::new();
    let pushover = |priority: i32, retry: u32, expire: u32| {
        let mut config = full_policy();
        config.pushover_priority = priority;
        config.pushover_retry = retry;
        config.pushover_expire = expire;
        match create_notifier(&config, NotifyType::Pushover, &none) {
            Some(Sink::Pushover(p)) => (p.priority, p.emergency),
            other => panic!("no push channel but {:?}", other),
        }
    };
    assert_eq!(pushover(-7, 0, 0), (-2, None));
    assert_eq!(pushover(-2, 0, 0), (-2, None));
    assert_eq!(pushover(0, 5, 99999), (0, None));
    assert_eq!(pushover(1, 5, 99999), (1, None));
    assert_eq!(pushover(2, 60, 3600), (2, Some(EmergencyRepeat { retry: 60, expire: 3600 })));
    assert_eq!(pushover(2, 5, 99999), (2, Some(EmergencyRepeat { retry: 30, expire: 10800 })));
    assert_eq!(pushover(9, 30, 10800), (2, Some(EmergencyRepeat { retry: 30, expire: 10800 })));
    assert_eq!(pushover(2, 29, 10801), (2, Some(EmergencyRepeat { retry: 30, expire: 10800 })));

    let ntfy = |priority: u32| {
        let mut config = full_policy();
        config.ntfy_priority = priority;
        match create_notifier(&config, NotifyType::Ntfy, &none) {
            Some(Sink::Ntfy(n)) => n.priority,
            other => panic!("no topic channel but {:?}", other),
        }
    };
    assert_eq!(ntfy(0), 1);
    assert_eq!(ntfy(1), 1);
    assert_eq!(ntfy(3), 3);
    assert_eq!(ntfy(5), 5);
    assert_eq!(ntfy(6), 5);
    assert_eq!(ntfy(u32::MAX), 5);
}

#[test]
fn topic_channel_needs_a_safe_url() {
    let public = vec![v4(93, 184, 216, 34)];
    let mut config = full_policy();
    assert!(create_notifier(&config, NotifyType::Ntfy, &public).is_some());
    assert_eq!(create_notifier(&config, NotifyType::Ntfy, &vec![v4(10, 0, 0, 7)]), None);
    config.ntfy_topic_url = String::new();
    assert_eq!(create_notifier(&config, NotifyType::Ntfy, &public), None);
    config.ntfy_topic_url = String::from("http://ntfy.example.org/power");
    assert_eq!(create_notifier(&config, NotifyType::Ntfy, &public), None);
    config.ntfy_topic_url = String::from("https://localhost/power");
    assert_eq!(create_notifier(&config, NotifyType::Ntfy, &public), None);
}

#[test]
fn topic_urls_are_refused_for_each_reason() {
    let public = vec![v4(93, 184, 216, 34)];
    let none = Vec::new();
    assert_eq!(check_topic_url("https://ntfy.sh/power", &public), Ok(()));
    assert_eq!(check_topic_url("https://ntfy.sh/power", &none), Ok(()));
    assert_eq!(check_topic_url("HTTPS://NTFY.SH/power", &public), Ok(()));
    assert_eq!(check_topic_url("https://93.184.216.34/power", &none), Ok(()));
    assert_eq!(check_topic_url("https://[2606:2800:220:1::1]/power", &none), Ok(()));

    assert_eq!(check_topic_url("not a url", &public), Err(TopicUrlError::Unparsable));
    assert_eq!(check_topic_url("", &public), Err(TopicUrlError::Unparsable));
    assert_eq!(check_topic_url("https://", &public), Err(TopicUrlError::Unparsable));
    assert_eq!(check_topic_url("http://ntfy.sh/power", &public), Err(TopicUrlError::NotEncrypted));
    assert_eq!(check_topic_url("ftp://ntfy.sh/power", &public), Err(TopicUrlError::NotEncrypted));
    assert_eq!(check_topic_url("mailto:a@example.org", &public), Err(TopicUrlError::NotEncrypted));

    assert_eq!(check_topic_url("https://localhost/power", &public), Err(TopicUrlError::ForbiddenHost));
    assert_eq!(check_topic_url("https://LOCALHOST:8443/x", &public), Err(TopicUrlError::ForbiddenHost));
    assert_eq!(check_topic_url("https://printer.local/x", &public), Err(TopicUrlError::ForbiddenHost));
    assert_eq!(check_topic_url("https://localhost./x", &public), Err(TopicUrlError::ForbiddenHost));
    assert_eq!(check_topic_url("https://printer.local./x", &public), Err(TopicUrlError::ForbiddenHost));
    assert_eq!(check_topic_url("https://ntfy.sh./power", &public), Ok(()));
    assert_eq!(check_topic_url("https://127.0.0.1/power", &public), Err(TopicUrlError::ForbiddenHost));
    assert_eq!(check_topic_url("https://2130706433/power", &public), Err(TopicUrlError::ForbiddenHost));
    assert_eq!(check_topic_url("https://0x7f.1/power", &public), Err(TopicUrlError::ForbiddenHost));
    assert_eq!(check_topic_url("https://192.168.1.10/x", &public), Err(TopicUrlError::ForbiddenHost));
    assert_eq!(check_topic_url("https://[::1]/power", &public), Err(TopicUrlError::ForbiddenHost));
    assert_eq!(
        check_topic_url("https://[::ffff:10.0.0.1]/power", &public),
        Err(TopicUrlError::ForbiddenHost)
    );
    assert_eq!(check_topic_url("https://[fe80::1]/power", &public), Err(TopicUrlError::ForbiddenHost));

    assert_eq!(
        check_topic_url("https://ntfy.sh/power", &vec![v4(93, 184, 216, 34), v4(127, 0, 0, 1)]),
        Err(TopicUrlError::ForbiddenAddress)
    );
    assert_eq!(
        check_topic_url("https://ntfy.sh/power", &vec![HostAddr::V6(1)]),
        Err(TopicUrlError::ForbiddenAddress)
    );
    assert_eq!(
        check_topic_url("https://93.184.216.34/power", &vec![v4(169, 254, 1, 1)]),
        Err(TopicUrlError::ForbiddenAddress)
    );
}

#[test]
fn parts_of_a_url_are_judged_in_order() {
    let none = Vec::new();
    let local = vec![v4(10, 1, 2, 3)];
    assert_eq!(judge_topic_url(&None, &none), Err(TopicUrlError::Unparsable));
    let url = |scheme: &str, host: Option<UrlHost>| {
        Some(ParsedUrl { scheme: String::from(scheme), host })
    };
    let name = |n: &str| Some(UrlHost::Domain(String::from(n)));
    assert_eq!(judge_topic_url(&url("http", name("localhost")), &local), Err(TopicUrlError::NotEncrypted));
    assert_eq!(judge_topic_url(&url("https", None), &local), Err(TopicUrlError::NoHost));
    assert_eq!(judge_topic_url(&url("https", name("")), &local), Err(TopicUrlError::NoHost));
    assert_eq!(judge_topic_url(&url("https", name("localhost")), &local), Err(TopicUrlError::ForbiddenHost));
    assert_eq!(judge_topic_url(&url("https", name("LocalHost.")), &none), Err(TopicUrlError::ForbiddenHost));
    assert_eq!(judge_topic_url(&url("https", name("NAS.Local")), &none), Err(TopicUrlError::ForbiddenHost));
    assert_eq!(judge_topic_url(&url("https", name("ntfy.sh")), &local), Err(TopicUrlError::ForbiddenAddress));
    assert_eq!(judge_topic_url(&url("https", name("ntfy.sh")), &none), Ok(()));
    assert_eq!(
        judge_topic_url(&url("https", Some(UrlHost::Addr(v4(8, 8, 8, 8)))), &none),
        Ok(())
    );
    assert_eq!(
        judge_topic_url(&url("https", Some(UrlHost::Addr(v4(0, 0, 0, 0)))), &none),
        Err(TopicUrlError::ForbiddenHost)
    );
    assert_eq!(host_name_of(&url("https", name("ntfy.sh"))), Some(String::from("ntfy.sh")));
    assert_eq!(host_name_of(&url("https", Some(UrlHost::Addr(v4(8, 8, 8, 8))))), None);
    assert_eq!(host_name_of(&url("https", None)), None);
    assert_eq!(host_name_of(&None), None);
}

#[test]
fn host_names_are_picked_out_for_lookup() {
    assert_eq!(host_to_resolve("https://ntfy.sh/power"), Some(String::from("ntfy.sh")));
    assert_eq!(host_to_resolve("https://NTFY.sh:8443/power?x=1"), Some(String::from("ntfy.sh")));
    assert_eq!(host_to_resolve("https://user:pw@push.example.org/t"), Some(String::from("push.example.org")));
    assert_eq!(host_to_resolve("https://10.0.0.1/power"), None);
    assert_eq!(host_to_resolve("https://[::1]/power"), None);
    assert_eq!(host_to_resolve("not a url"), None);
    assert_eq!(host_to_resolve("mailto:a@example.org"), None);
}

#[test]
fn topic_host_is_looked_up_only_for_a_topic_channel() {
    let mut config = full_policy();
    assert!(lists_kind(&config, NotifyType::Ntfy));
    assert_eq!(topic_host_to_resolve(&config), Some(String::from("ntfy.example.org")));
    config.ntfy_topic_url = String::from("https://10.1.2.3/power");
    assert_eq!(topic_host_to_resolve(&config), None);
    config.ntfy_topic_url = String::from("https://ntfy.example.org/power");
    config.notify_types = vec![NotifyType::Console, NotifyType::Email];
    assert!(!lists_kind(&config, NotifyType::Ntfy));
    assert!(lists_kind(&config, NotifyType::Email));
    assert_eq!(topic_host_to_resolve(&config), None);
    config.notify_types = Vec::new();
    assert!(!lists_kind(&config, NotifyType::Console));

    // A policy that is switched off builds nothing, so there is nothing to
    // look up.
    let mut off = full_policy();
    off.enabled = false;
    assert_eq!(topic_host_to_resolve(&off), None);
}

#[test]
fn addresses_inside_the_local_network_are_forbidden() {
    let forbidden = [
        v4(0, 0, 0, 0),
        v4(127, 0, 0, 1),
        v4(127, 255, 255, 255),
        v4(10, 0, 0, 0),
        v4(10, 255, 255, 255),
        v4(172, 16, 0, 0),
        v4(172, 31, 255, 255),
        v4(192, 168, 0, 0),
        v4(192, 168, 255, 255),
        v4(169, 254, 0, 0),
        v4(169, 254, 255, 255),
        v4(224, 0, 0, 0),
        v4(239, 255, 255, 255),
        v4(255, 255, 255, 255),
        HostAddr::V6(0),
        HostAddr::V6(1),
        HostAddr::V6(0xfc00u128 << 112),
        HostAddr::V6((0xfdffu128 << 112) | 0xffff),
        HostAddr::V6(0xfe80u128 << 112),
        HostAddr::V6((0xfebfu128 << 112) | 1),
        HostAddr::V6(0xff02u128 << 112 | 1),
        HostAddr::V6(u128::MAX),
        HostAddr::V6(0xffff_7f00_0001),
        HostAddr::V6(0xffff_c0a8_0101),
    ];
    for addr in forbidden {
        assert!(is_addr_forbidden(addr), "{:?}", addr);
    }
    let allowed = [
        v4(0, 0, 0, 1),
        v4(1, 1, 1, 1),
        v4(9, 255, 255, 255),
        v4(11, 0, 0, 0),
        v4(126, 255, 255, 255),
        v4(128, 0, 0, 0),
        v4(172, 15, 255, 255),
        v4(172, 32, 0, 0),
        v4(192, 167, 255, 255),
        v4(192, 169, 0, 0),
        v4(169, 253, 255, 255),
        v4(169, 255, 0, 0),
        v4(223, 255, 255, 255),
        v4(240, 0, 0, 0),
        v4(255, 255, 255, 254),
        HostAddr::V6(2),
        HostAddr::V6(0x2606_2800_0220_0001u128 << 64 | 1),
        HostAddr::V6((0xfc00u128 << 112) - 1),
        HostAddr::V6(0xfe00u128 << 112),
        HostAddr::V6((0xfe80u128 << 112) - 1),
        HostAddr::V6(0xfec0u128 << 112),
        HostAddr::V6((0xff00u128 << 112) - 1),
        HostAddr::V6(0xffff_0808_0808),
        HostAddr::V6(0xfffe_7f00_0001),
        HostAddr::V6(0x1_0000_7f00_0001),
    ];
    for addr in allowed {
        assert!(!is_addr_forbidden(addr), "{:?}", addr);
    }
    assert!(is_v4_forbidden(0x7f00_0001));
    assert!(!is_v4_forbidden(0x0808_0808));
    assert!(!is_any_forbidden(&Vec::new()));
    assert!(!is_any_forbidden(&vec![v4(1, 1, 1, 1), v4(8, 8, 8, 8)]));
    assert!(is_any_forbidden(&vec![v4(1, 1, 1, 1), v4(10, 0, 0, 1), v4(8, 8, 8, 8)]));
    assert!(is_any_forbidden(&vec![v4(8, 8, 8, 8), HostAddr::V6(1)]));
}

#[test]
fn host_names_of_the_machine_are_forbidden() {
    assert!(is_name_forbidden("localhost"));
    assert!(is_name_forbidden("printer.local"));
    assert!(is_name_forbidden("a.b.local"));
    assert!(is_name_forbidden(".local"));
    assert!(is_name_forbidden("localhost."));
    assert!(is_name_forbidden("printer.local."));
    assert!(is_name_forbidden(".local."));
    assert!(!is_name_forbidden("localhost.."));
    assert!(!is_name_forbidden("printer.local.."));
    assert!(!is_name_forbidden("local."));
    assert!(!is_name_forbidden("ntfy.sh."));
    assert!(!is_name_forbidden("."));
    assert!(is_name_forbidden("LOCALHOST"));
    assert!(is_name_forbidden("LocalHost."));
    assert!(is_name_forbidden("Printer.LOCAL"));
    assert!(is_name_forbidden("printer.Local."));
    assert!(!is_name_forbidden("LOCALHOST.EXAMPLE.ORG"));
    assert_eq!(to_lower_case('A'), 'a');
    assert_eq!(to_lower_case('Z'), 'z');
    assert_eq!(to_lower_case('m'), 'm');
    assert_eq!(to_lower_case('@'), '@');
    assert_eq!(to_lower_case('['), '[');
    assert_eq!(to_lower_case('.'), '.');
    assert_eq!(to_lower_case('É'), 'É');
    assert_eq!(lower_cased(&vec!['N', 't', 'F', 'y', '.', 'S', 'H']), vec!['n', 't', 'f', 'y', '.', 's', 'h']);
    assert_eq!(lower_cased(&Vec::new()), Vec::<char>::new());
    assert!(!is_name_forbidden("local"));
    assert!(!is_name_forbidden("localhost.example.org"));
    assert!(!is_name_forbidden("notlocalhost"));
    assert!(!is_name_forbidden("example.localx"));
    assert!(!is_name_forbidden("ntfy.sh"));
    assert!(!is_name_forbidden(""));
}
