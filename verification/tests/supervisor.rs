//! The supervision protocol: registration, spawning, shutdown, joining.

use router_bot::{
    BotManager, BotSpec, Config, Supervisor, SupervisorAction, TelegramBotSpec, UserId,
    UserWhitelist,
};
use router_bot::AuthFilter;

fn telegram_spec(token: &str, users: Vec<u64>) -> BotSpec {
    BotSpec::Telegram(TelegramBotSpec {
        token: token.to_string(),
        auth: UserWhitelist::from_iter(users),
    })
}

#[test]
fn zero_bots_finishes_immediately() {
    let sup = Supervisor::new(0);
    assert!(sup.done());
    assert_eq!(sup.next_action(), SupervisorAction::Finish);
    assert_eq!(sup.spawned, 0);
}

#[test]
fn three_bots_return_only_after_all_joined() {
    let mut sup = Supervisor::new(3);
    assert_eq!(sup.next_action(), SupervisorAction::Spawn(0));
    sup.on_spawned();
    assert_eq!(sup.next_action(), SupervisorAction::Spawn(1));
    sup.on_spawned();
    assert_eq!(sup.next_action(), SupervisorAction::Spawn(2));
    sup.on_spawned();

    assert_eq!(sup.next_action(), SupervisorAction::AwaitShutdown);
    assert!(!sup.done());
    sup.on_shutdown();

    // Tasks are stopped one after the other: cancel, then join. The second
    // task fails; the run goes on regardless.
    let failures = [false, true, false];
    for (i, failed) in failures.into_iter().enumerate() {
        assert_eq!(sup.next_action(), SupervisorAction::SendCancel(i));
        assert!(!sup.done());
        sup.on_cancel_sent(i != 0);
        assert_eq!(sup.next_action(), SupervisorAction::Join(i));
        assert!(!sup.done());
        sup.on_task_joined(failed);
    }

    assert!(sup.done());
    assert_eq!(sup.next_action(), SupervisorAction::Finish);
    assert_eq!(sup.joined, 3);
    assert_eq!(sup.cancelled, 3);
}

#[test]
fn one_bot_blocks_until_joined() {
    let mut sup = Supervisor::new(1);
    sup.on_spawned();
    assert_eq!(sup.next_action(), SupervisorAction::AwaitShutdown);
    sup.on_shutdown();
    sup.on_cancel_sent(true);
    assert!(!sup.done());
    sup.on_task_joined(false);
    assert!(sup.done());
}

#[test]
fn manager_registers_bots_in_order() {
    let mut manager = BotManager::new();
    assert_eq!(manager.bot_count(), 0);
    manager.add(telegram_spec("token-a", vec![1]));
    manager.add(telegram_spec("token-b", vec![2]));
    assert_eq!(manager.bot_count(), 2);
    let bots = manager.into_bots();
    assert_eq!(bots.len(), 2);
    let BotSpec::Telegram(first) = &bots[0];
    assert_eq!(first.token, "token-a");
    assert!(first.auth.is_allowed(UserId::new(1)));
    assert!(!first.auth.is_allowed(UserId::new(2)));
}

#[test]
fn manager_from_config_builds_one_telegram_bot() {
    let config = Config::new(vec![
        ("BOT_TOKEN".to_string(), "123:abc".to_string()),
        ("BOT_ALLOWED_USERS".to_string(), "10, 20,30".to_string()),
    ]);
    let manager = BotManager::from_config(&config).unwrap();
    assert_eq!(manager.bot_count(), 1);
    let bots = manager.into_bots();
    let BotSpec::Telegram(bot) = &bots[0];
    assert_eq!(bot.token, "123:abc");
    assert!(bot.auth.is_allowed(UserId::new(10)));
    assert!(bot.auth.is_allowed(UserId::new(20)));
    assert!(bot.auth.is_allowed(UserId::new(30)));
    assert!(!bot.auth.is_allowed(UserId::new(40)));
}

#[test]
fn manager_from_config_requires_token() {
    let config = Config::new(vec![(
        "BOT_ALLOWED_USERS".to_string(),
        "10".to_string(),
    )]);
    let err = match BotManager::from_config(&config) {
        Err(e) => e,
        Ok(_) => panic!("expected a missing token"),
    };
    assert_eq!(err.message(), "required config key 'BOT_TOKEN'");
}

#[test]
fn manager_from_config_requires_users() {
    let config = Config::new(vec![
        ("BOT_TOKEN".to_string(), "123:abc".to_string()),
        ("BOT_ALLOWED_USERS".to_string(), "nonsense".to_string()),
    ]);
    let err = match BotManager::from_config(&config) {
        Err(e) => e,
        Ok(_) => panic!("expected an unusable user list"),
    };
    assert_eq!(
        err.message(),
        "required config key 'BOT_ALLOWED_USERS' is missing or empty"
    );
}
