use capybara::cmd::capybara::Weekday;
use capybara::cmd::info::{MemberProfile, UserProfile};
use capybara::cmd::status::BuildInfo;
use capybara::cmd::{Capybara, Eval, Info, Me, Status};
use capybara::embed::{text_response, EmbedField};
use capybara::ids::UserId;
use capybara::notice::Notice;
use capybara::options::{OptionValue, ResolvedOption};

fn field(name: &str, value: &str, inline: bool) -> EmbedField {
    EmbedField { name: name.to_string(), value: value.to_string(), inline }
}

fn user() -> UserProfile {
    UserProfile {
        id: UserId(123456789),
        name: "ann_1".to_string(),
        face: "https://img/face.png".to_string(),
        bot: false,
        created_at: 1431648000,
        accent_colour: None,
        banner_url: None,
    }
}

#[test]
fn capybara_has_a_picture_for_every_day() {
    assert_eq!(Capybara::image_url(Weekday::Mon), "https://karei.dev/files/capybara-gifs/cp_monday.gif");
    assert_eq!(Capybara::image_url(Weekday::Tue), "https://karei.dev/files/capybara-gifs/cp_tuesday.gif");
    assert_eq!(Capybara::image_url(Weekday::Wed), "https://karei.dev/files/capybara-gifs/cp_wednesday.gif");
    assert_eq!(Capybara::image_url(Weekday::Thu), "https://karei.dev/files/capybara-gifs/cp_thursday.gif");
    assert_eq!(Capybara::image_url(Weekday::Fri), "https://karei.dev/files/capybara-gifs/cp_friday.gif");
    assert_eq!(Capybara::image_url(Weekday::Sat), "https://karei.dev/files/capybara-gifs/cp_saturday.gif");
    assert_eq!(Capybara::image_url(Weekday::Sun), "https://karei.dev/files/capybara-gifs/cp_sunday.gif");
}

#[test]
fn capybara_reply_is_just_the_picture() {
    let r = Capybara::reply(Weekday::Fri);
    assert_eq!(r.embed.image, Some("https://karei.dev/files/capybara-gifs/cp_friday.gif".to_string()));
    assert_eq!(r.embed.title, None);
    assert_eq!(r.embed.colour, 0xE80C74);
    assert!(r.embed.fields.is_empty());
    assert_eq!(r.button, None);
}

#[test]
fn capybara_execute_shows_one_of_the_seven() {
    let days = [
        Weekday::Mon,
        Weekday::Tue,
        Weekday::Wed,
        Weekday::Thu,
        Weekday::Fri,
        Weekday::Sat,
        Weekday::Sun,
    ];
    let r = Capybara::execute();
    assert_eq!(days.iter().filter(|d| Capybara::reply(**d) == r).count(), 1);
}

#[test]
fn capybara_is_declared() {
    assert_eq!(Capybara::name(), "capybara");
    assert_eq!(Capybara::info().description, "Post today's capybara gif");
}

#[test]
fn me_shows_the_avatar() {
    let r = Me::reply(Some("https://img/bot.png".to_string()));
    assert_eq!(r.embed.image, Some("https://img/bot.png".to_string()));
    assert_eq!(r.embed.footer, Some("💩".to_string()));
    assert_eq!(r.embed.title, None);
    assert_eq!(r.embed.colour, 0xE80C74);
}

#[test]
fn me_without_avatar_is_an_orange() {
    assert_eq!(Me::reply(None), text_response("🍊"));
    assert_eq!(Me::name(), "me");
}

#[test]
fn status_shows_the_build() {
    let r = Status::reply(BuildInfo {
        version: "0.3.1".to_string(),
        rust: "1.75.0".to_string(),
        llvm: "17.0".to_string(),
        commit: "abc1234".to_string(),
        host: "x86_64-unknown-linux-gnu".to_string(),
        timestamp: "2024-01-05T12:30:00+00:00".to_string(),
    });
    assert_eq!(r.embed.title, Some("Status".to_string()));
    assert_eq!(
        r.embed.fields,
        vec![
            field("Version", "0.3.1", true),
            field("Rust", "1.75.0", true),
            field("LLVM", "17.0", true),
            field("Commit", "abc1234", true),
            field("Host", "x86_64-unknown-linux-gnu", false),
            field("Build", "2024-01-05T12:30:00+00:00", false),
        ]
    );
    assert_eq!(Status::name(), "status");
    assert_eq!(Status::info().description, "display capybara status");
}

#[test]
fn info_target_defaults_to_the_invoker() {
    assert_eq!(Info::target(&Vec::new(), UserId(7)), Ok(UserId(7)));
    let named = vec![ResolvedOption { name: "user".to_string(), value: OptionValue::User(UserId(9)) }];
    assert_eq!(Info::target(&named, UserId(7)), Ok(UserId(9)));
    let wrong = vec![ResolvedOption { name: "user".to_string(), value: OptionValue::Text("ann".to_string()) }];
    assert_eq!(Info::target(&wrong, UserId(7)), Err(Notice::InvalidUser));
}

#[test]
fn info_of_a_user_outside_a_guild() {
    let r = Info::reply(user(), None);
    assert_eq!(r.embed.title, Some("ann\\_1".to_string()));
    assert_eq!(r.embed.image, Some(String::new()));
    assert_eq!(r.embed.thumbnail, Some("https://img/face.png".to_string()));
    assert_eq!(r.embed.colour, 0xE80C74);
    assert_eq!(
        r.embed.fields,
        vec![
            field("User", "ann_1", true),
            field("Joined at", "15 May 2015, 00:00:00", true),
            field("Is a bot?", "No", false),
        ]
    );
    assert_eq!(r.embed.footer, Some("UserID: 123456789".to_string()));
}

#[test]
fn info_of_a_member_uses_the_guild_profile() {
    let mut u = user();
    u.bot = true;
    u.accent_colour = Some(0x112233);
    u.banner_url = Some("https://img/banner.png".to_string());
    u.created_at = 0;
    let m = MemberProfile {
        display_name: "Ann *the* Great".to_string(),
        avatar_url: Some("https://img/guild-face.png".to_string()),
    };
    let r = Info::reply(u, Some(m));
    assert_eq!(r.embed.title, Some("Ann \\*the\\* Great".to_string()));
    assert_eq!(r.embed.image, Some("https://img/banner.png".to_string()));
    assert_eq!(r.embed.thumbnail, Some("https://img/guild-face.png".to_string()));
    assert_eq!(r.embed.colour, 0x112233);
    assert_eq!(r.embed.fields[1], field("Joined at", "01 January 1970, 00:00:00", true));
    assert_eq!(r.embed.fields[2], field("Is a bot?", "Yes", false));
}

#[test]
fn info_of_a_member_without_guild_avatar_uses_the_face() {
    let m = MemberProfile { display_name: "Ann".to_string(), avatar_url: None };
    let r = Info::reply(user(), Some(m));
    assert_eq!(r.embed.thumbnail, Some("https://img/face.png".to_string()));
    assert_eq!(r.embed.title, Some("Ann".to_string()));
}

#[test]
fn info_writes_out_the_time_of_day() {
    let mut u = user();
    u.created_at = 1_700_000_000 + 3_661;
    let r = Info::reply(u, None);
    assert_eq!(r.embed.fields[1], field("Joined at", "14 November 2023, 23:14:21", true));
}

#[test]
fn info_out_of_the_calendar_falls_back_on_the_epoch() {
    let mut u = user();
    u.created_at = i64::MAX;
    let r = Info::reply(u, None);
    assert_eq!(r.embed.fields[1], field("Joined at", "01 January 1970, 00:00:00", true));
}

#[test]
fn info_card_takes_the_date_as_given() {
    let r = Info::card(user(), None, "some day".to_string());
    assert_eq!(r.embed.fields[1], field("Joined at", "some day", true));
}

#[test]
fn eval_expression_is_the_text_of_the_option() {
    let options = vec![ResolvedOption {
        name: "expression".to_string(),
        value: OptionValue::Text("1 + 2".to_string()),
    }];
    assert_eq!(Eval::expression(&options), Ok("1 + 2".to_string()));
    assert_eq!(Eval::expression(&Vec::new()), Err(Notice::NoExpression));
    let wrong = vec![ResolvedOption { name: "expression".to_string(), value: OptionValue::Other }];
    assert_eq!(Eval::expression(&wrong), Err(Notice::MalformedExpression));
}

#[test]
fn eval_help_is_recognised_with_white_space_around() {
    assert!(Eval::is_help("help"));
    assert!(Eval::is_help("  help  "));
    assert!(Eval::is_help("\thelp\n"));
    assert!(Eval::is_help("\u{a0}help\u{3000}"));
    assert!(!Eval::is_help("Help"));
    assert!(!Eval::is_help("help me"));
    assert!(!Eval::is_help("he lp"));
    assert!(!Eval::is_help("helps"));
    assert!(!Eval::is_help("hel"));
    assert!(!Eval::is_help(""));
    assert!(!Eval::is_help("   "));
    assert!(!Eval::is_help("\u{200b}help"));
}

#[test]
fn eval_help_agrees_with_trim() {
    let samples = ["help", " help", "help\r\n", "\u{2003}help\u{2028}", "xhelp", "", " ", "h e l p"];
    for s in samples {
        assert_eq!(Eval::is_help(s), s.trim() == "help");
    }
}

#[test]
fn eval_describe_points_to_the_manual() {
    assert_eq!(Eval::describe(" help "), "https://github.com/ISibboI/evalexpr/blob/main/README.md");
}

#[test]
fn eval_describe_works_out_expressions() {
    assert_eq!(Eval::describe("1 + 2"), "3");
    assert_eq!(Eval::describe("2 * (3 + 4)"), "14");
    assert_eq!(Eval::describe("1 < 2 && true"), "true");
    assert_eq!(Eval::describe("7 / 2.0"), "3.5");
}

#[test]
fn eval_describe_reports_errors_in_words() {
    let text = Eval::describe("1 +");
    assert!(!text.is_empty());
    assert_ne!(text, "1 +");
    let text = Eval::describe("unknown_variable");
    assert!(text.contains("unknown_variable"));
    assert_ne!(text, "unknown_variable");
}

#[test]
fn eval_reply_escapes_the_expression() {
    let r = Eval::execute("2 * 3");
    assert_eq!(r.embed.title, Some("2 \\* 3".to_string()));
    assert_eq!(r.embed.description, Some("6".to_string()));
    assert_eq!(r.embed.colour, 0xE80C74);
    assert!(r.embed.fields.is_empty());
    let r = Eval::reply("a_b", "outcome".to_string());
    assert_eq!(r.embed.title, Some("a\\_b".to_string()));
    assert_eq!(r.embed.description, Some("outcome".to_string()));
}

#[test]
fn eval_refuses_functions_that_can_bring_the_evaluator_down() {
    assert!(Eval::is_refused("str::substring(\"é\", 1)"));
    assert!(Eval::is_refused("shl(1, 200)"));
    assert!(Eval::is_refused("shr(1, 200)"));
    assert!(Eval::is_refused("math::abs(-1)"));
    assert!(Eval::is_refused("1 + shl(1, 2)"));
    assert!(!Eval::is_refused("1 + 2"));
    assert!(!Eval::is_refused("str::to_uppercase(\"a\")"));
    assert!(!Eval::is_refused("math::sqrt(4)"));
    assert!(!Eval::is_refused(""));
}

#[test]
fn eval_answers_a_refused_expression_with_a_line_of_its_own() {
    assert_eq!(Eval::describe("str::substring(\"é\", 1)"), "Unsupported function in expression");
    assert_eq!(Eval::describe("shl(1, 200)"), "Unsupported function in expression");
    let r = Eval::execute("math::abs(-1)");
    assert_eq!(r.embed.title, Some("math::abs(-1)".to_string()));
    assert_eq!(r.embed.description, Some("Unsupported function in expression".to_string()));
}

#[test]
fn eval_help_comes_before_everything_else() {
    let r = Eval::execute(" help ");
    assert_eq!(r.embed.title, Some(" help ".to_string()));
    assert_eq!(
        r.embed.description,
        Some("https://github.com/ISibboI/evalexpr/blob/main/README.md".to_string())
    );
}

#[test]
fn info_joined_writes_the_day() {
    assert_eq!(Info::joined(1431648000), "15 May 2015, 00:00:00");
    assert_eq!(Info::joined(0), "01 January 1970, 00:00:00");
    assert_eq!(Info::joined(-1), "31 December 1969, 23:59:59");
    assert_eq!(Info::joined(i64::MAX), "01 January 1970, 00:00:00");
    assert_eq!(Info::joined(i64::MIN), "01 January 1970, 00:00:00");
}

#[test]
fn eval_refuses_an_expression_that_is_too_long() {
    let just_fits: String = std::iter::repeat('1').take(256).collect();
    assert!(!Eval::is_too_long(&just_fits));
    assert_ne!(Eval::describe(&just_fits), "Expression is too long");
    let sum = format!("{}1 + 2", " ".repeat(251));
    assert_eq!(sum.chars().count(), 256);
    assert_eq!(Eval::describe(&sum), "3");
    let too_long: String = std::iter::repeat('(').take(3000).collect();
    assert!(Eval::is_too_long(&too_long));
    assert_eq!(Eval::describe(&too_long), "Expression is too long");
    let wide: String = std::iter::repeat('é').take(257).collect();
    assert!(Eval::is_too_long(&wide));
    let r = Eval::execute(&too_long);
    assert_eq!(r.embed.description, Some("Expression is too long".to_string()));
}
