use twitter_exporter::collector::{record_outcome, PollError, PollOutcome};
use twitter_exporter::config::{Config, Token};
use twitter_exporter::exposition::{content_type, render, scrape};
use twitter_exporter::registry::{MetricRegistry, MetricSample, PollStats, Property};
use twitter_exporter::schedule::{ScheduleSpec, Scheduler};

fn stats(tweet: i64, fav: i64, following: i64, followers: i64, listed: i64) -> PollStats {
    PollStats { tweet, fav, following, followers, listed }
}

#[test]
fn successful_poll_fills_snapshot() {
    let mut reg = MetricRegistry::new();
    let subject = String::from("sksat_tty");
    let outcome = PollOutcome::Success(stats(120, 45, 30, 500, 2));
    record_outcome(&mut reg, &subject, &outcome);

    let snap = reg.snapshot();
    assert_eq!(snap.len(), 5);
    for m in &snap {
        assert_eq!(m.subject, "sksat_tty");
    }
    assert_eq!(snap[0].property, Property::Tweet);
    assert_eq!(snap[0].value, 120);
    assert_eq!(snap[1].property, Property::Fav);
    assert_eq!(snap[1].value, 45);
    assert_eq!(snap[2].property, Property::Following);
    assert_eq!(snap[2].value, 30);
    assert_eq!(snap[3].property, Property::Followers);
    assert_eq!(snap[3].value, 500);
    assert_eq!(snap[4].property, Property::Listed);
    assert_eq!(snap[4].value, 2);
}

#[test]
fn snapshot_reflects_latest_poll_only() {
    let mut reg = MetricRegistry::new();
    let subject = String::from("sksat_tty");
    record_outcome(&mut reg, &subject, &PollOutcome::Success(stats(1, 2, 3, 4, 5)));
    record_outcome(&mut reg, &subject, &PollOutcome::Success(stats(10, 20, 30, 40, 50)));

    assert_eq!(reg.len(), 1);
    let got = reg.get_group(&subject).unwrap();
    assert_eq!(got, stats(10, 20, 30, 40, 50));
}

#[test]
fn failed_poll_leaves_registry_unchanged() {
    let mut reg = MetricRegistry::new();
    let subject = String::from("sksat_tty");
    record_outcome(&mut reg, &subject, &PollOutcome::Success(stats(120, 45, 30, 500, 2)));
    let before = scrape(&reg);

    for err in [
        PollError::Network,
        PollError::Auth,
        PollError::RateLimit,
        PollError::MalformedResponse,
    ] {
        record_outcome(&mut reg, &subject, &PollOutcome::Failure(err));
    }

    assert_eq!(reg.get_group(&subject).unwrap(), stats(120, 45, 30, 500, 2));
    assert_eq!(scrape(&reg), before);
}

#[test]
fn failed_poll_on_empty_registry_keeps_it_empty() {
    let mut reg = MetricRegistry::new();
    let subject = String::from("sksat_tty");
    record_outcome(&mut reg, &subject, &PollOutcome::Failure(PollError::Auth));
    assert_eq!(reg.len(), 0);
    assert_eq!(reg.get_group(&subject), None);
    assert_eq!(scrape(&reg), "");
}

#[test]
fn scrape_contains_expected_lines() {
    let mut reg = MetricRegistry::new();
    let subject = String::from("sksat_tty");
    record_outcome(&mut reg, &subject, &PollOutcome::Success(stats(120, 45, 30, 500, 2)));

    let body = scrape(&reg);
    assert!(body.contains("# HELP twitter_user Twitter user info\n"));
    assert!(body.contains("# TYPE twitter_user gauge\n"));
    assert!(body.contains("twitter_user{screen_name=\"sksat_tty\",property=\"tweet\"} 120\n"));
    assert!(body.contains("twitter_user{screen_name=\"sksat_tty\",property=\"fav\"} 45\n"));
    assert!(body.contains("twitter_user{screen_name=\"sksat_tty\",property=\"following\"} 30\n"));
    assert!(body.contains("twitter_user{screen_name=\"sksat_tty\",property=\"followers\"} 500\n"));
    assert!(body.contains("twitter_user{screen_name=\"sksat_tty\",property=\"listed\"} 2\n"));
}

#[test]
fn scrape_body_is_exact() {
    let mut reg = MetricRegistry::new();
    let subject = String::from("a");
    record_outcome(&mut reg, &subject, &PollOutcome::Success(stats(1, 0, -5, 9007199254740993, i64::MIN)));

    let expected = "# HELP twitter_user Twitter user info\n# TYPE twitter_user gauge\ntwitter_user{screen_name=\"a\",property=\"tweet\"} 1\ntwitter_user{screen_name=\"a\",property=\"fav\"} 0\ntwitter_user{screen_name=\"a\",property=\"following\"} -5\ntwitter_user{screen_name=\"a\",property=\"followers\"} 9007199254740993\ntwitter_user{screen_name=\"a\",property=\"listed\"} -9223372036854775808\n";
    assert_eq!(scrape(&reg), expected);
}

#[test]
fn scrape_is_idempotent_between_polls() {
    let mut reg = MetricRegistry::new();
    let subject = String::from("sksat_tty");
    record_outcome(&mut reg, &subject, &PollOutcome::Success(stats(120, 45, 30, 500, 2)));

    let first = scrape(&reg);
    let second = scrape(&reg);
    assert_eq!(first, second);

    let empty = MetricRegistry::new();
    assert_eq!(scrape(&empty), scrape(&empty));
}

#[test]
fn grouped_update_keeps_other_subjects_and_order() {
    let mut reg = MetricRegistry::new();
    let first = String::from("first");
    let second = String::from("second");
    record_outcome(&mut reg, &first, &PollOutcome::Success(stats(1, 1, 1, 1, 1)));
    record_outcome(&mut reg, &second, &PollOutcome::Success(stats(2, 2, 2, 2, 2)));
    record_outcome(&mut reg, &first, &PollOutcome::Success(stats(3, 3, 3, 3, 3)));

    assert_eq!(reg.len(), 2);
    assert_eq!(reg.get_group(&first).unwrap(), stats(3, 3, 3, 3, 3));
    assert_eq!(reg.get_group(&second).unwrap(), stats(2, 2, 2, 2, 2));

    let snap = reg.snapshot();
    assert_eq!(snap.len(), 10);
    assert_eq!(snap[0].subject, "first");
    assert_eq!(snap[0].value, 3);
    assert_eq!(snap[5].subject, "second");
    assert_eq!(snap[5].value, 2);
}

#[test]
fn render_of_plain_samples() {
    let samples = vec![MetricSample {
        subject: String::from("x"),
        property: Property::Followers,
        value: 7,
    }];
    let body = render(&samples);
    assert!(body.ends_with("twitter_user{screen_name=\"x\",property=\"followers\"} 7\n"));
    assert!(body.starts_with("# HELP twitter_user Twitter user info\n"));

    let none: Vec<MetricSample> = Vec::new();
    assert_eq!(render(&none), "");
}

#[test]
fn property_labels() {
    assert_eq!(Property::Tweet.label(), "tweet");
    assert_eq!(Property::Fav.label(), "fav");
    assert_eq!(Property::Following.label(), "following");
    assert_eq!(Property::Followers.label(), "followers");
    assert_eq!(Property::Listed.label(), "listed");
}

#[test]
fn stats_from_counts_widens() {
    let st = PollStats::from_counts(-1, 0, 1, i32::MAX, i32::MIN);
    assert_eq!(st.tweet, -1);
    assert_eq!(st.fav, 0);
    assert_eq!(st.following, 1);
    assert_eq!(st.followers, i32::MAX as i64);
    assert_eq!(st.listed, i32::MIN as i64);
    assert_eq!(st.value_of(Property::Tweet), -1);
    assert_eq!(st.value_of(Property::Listed), i32::MIN as i64);
}

#[test]
fn content_type_is_exposition_text() {
    assert_eq!(content_type(), "text/plain; version=0.0.4");
}

#[test]
fn invalid_cron_is_a_fatal_config_error() {
    let spec = ScheduleSpec {
        cron: String::from("not a cron expression"),
        subject: String::from("sksat_tty"),
    };
    let r = Scheduler::new(&spec);
    match r {
        Ok(_) => panic!("an invalid cron expression must be rejected"),
        Err(e) => assert!(!e.detail().is_empty()),
    }
}

#[test]
fn valid_cron_builds_an_unarmed_scheduler() {
    let spec = ScheduleSpec {
        cron: String::from("* * * * * *"),
        subject: String::from("sksat_tty"),
    };
    let sched = Scheduler::new(&spec);
    assert!(sched.is_ok());
    assert_eq!(sched.unwrap().subject().as_str(), "sksat_tty");
}

#[test]
fn scheduler_arms_then_fires_then_rearms() {
    let spec = ScheduleSpec {
        cron: String::from("* * * * * *"),
        subject: String::from("sksat_tty"),
    };
    let mut sched = Scheduler::new(&spec).unwrap();
    let start: u64 = 1_700_000_000_000;

    // The first tick only arms the scheduler.
    assert!(!sched.tick(start));
    // An every-second schedule is due two seconds later.
    assert!(sched.tick(start + 2_000));
    // The fire re-armed it strictly in the future of that instant.
    assert!(!sched.tick(start + 2_000));
}

#[test]
fn config_carries_its_fields() {
    let cfg = Config {
        port: 9100,
        cron: String::from("0 * * * * *"),
        token: Token {
            consumer_key: String::from("k"),
            consumer_secret: String::from("k"),
            access_token: String::from("k"),
            access_secret: String::from("k"),
        },
    };
    let copy = cfg.clone();
    assert_eq!(copy.port, 9100);
    assert_eq!(copy.cron, "0 * * * * *");
    assert_eq!(copy.token.consumer_key, "k");
}

#[test]
fn shared_registry_serves_scrapes() {
    let shared = twitter_exporter::shared::SharedRegistry::new();
    assert_eq!(shared.scrape(), "");
    let subject = String::from("sksat_tty");
    shared.record(&subject, &PollOutcome::Success(stats(120, 45, 30, 500, 2)));
    let body = shared.scrape();
    assert!(body.contains("twitter_user{screen_name=\"sksat_tty\",property=\"tweet\"} 120\n"));
    shared.record(&subject, &PollOutcome::Failure(PollError::Network));
    assert_eq!(shared.scrape(), body);
}

#[test]
fn zero_step_cron_is_rejected_as_fatal() {
    for expr in [
        "0/0 * * * * *",
        "*/0 * * * * *",
        "1-30/00 * * * * *",
        "0/000 * * * * *",
        "0/ 0 * * * * *",
        "0/\t0 * * * * *",
        "0/ \r\n 00 * * * * *",
    ] {
        let spec = ScheduleSpec {
            cron: String::from(expr),
            subject: String::from("sksat_tty"),
        };
        match Scheduler::new(&spec) {
            Ok(_) => panic!("a zero-step cron expression must be rejected"),
            Err(e) => assert!(!e.detail().is_empty()),
        }
    }
}

#[test]
fn nonzero_step_with_leading_zero_is_accepted() {
    for expr in ["0/02 * * * * *", "0/ 2 * * * * *"] {
        let spec = ScheduleSpec {
            cron: String::from(expr),
            subject: String::from("sksat_tty"),
        };
        assert!(Scheduler::new(&spec).is_ok());
    }
}

#[test]
fn subject_specials_are_escaped_in_labels() {
    let mut reg = MetricRegistry::new();
    let subject = String::from("a\"b\\c\nd");
    record_outcome(&mut reg, &subject, &PollOutcome::Success(stats(1, 2, 3, 4, 5)));
    let body = scrape(&reg);
    assert!(body.contains("twitter_user{screen_name=\"a\\\"b\\\\c\\nd\",property=\"tweet\"} 1\n"));
    assert!(!body.contains("screen_name=\"a\"b"));
}
