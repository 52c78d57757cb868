use hypha::cli::{
    bare_plan, exit, is_white_space, phone_plan, plan, respond, show_phone_secret, show_secret,
    single_char, Command, Exit, Input, Method, PhoneCommand, PhonePlan, Plan, Progress, Response,
};
use hypha::defer::Deferer;
use hypha::identity::{PublicId, SecretId};
use hypha::lpc::{decode, encode};
use hypha::peer::Peer;
use hypha::phone::Secret;
use hypha::report::Report;
use hypha::terminal::{Renderer, Step};
use std::cell::Cell;

const SECRET: &str = "9d61b19deffd5a60ba844af492ec2cc44449c5697b326919703bac031cae7f60";
const PUBLIC: &str = "d75a980182b10ab7d54bfed3c964073a0ee172f3daa62325af021a68f707511a";

fn text(response: Response) -> &'static str {
    match response {
        Response::Print(text) => text,
        _ => panic!(),
    }
}

fn line(text: &str) -> Input {
    Input::Line(String::from(text))
}

#[test]
fn how_a_program_ends() {
    assert_eq!(exit(Progress::Done), Exit::Success);
    assert_eq!(exit(Progress::Answered(0)), Exit::Success);
    assert_eq!(exit(Progress::Answered(2)), Exit::Failure);
    assert_eq!(exit(Progress::Failed), Exit::Failure);
    assert_eq!(exit(Progress::NotSetUp), Exit::Failure);
}

#[test]
fn a_new_secret_is_shown() {
    let (first, second) = show_secret(&SecretId::from_str(SECRET).unwrap());
    assert_eq!(first, "Your SECRET ID: SecretKey(..)");
    assert_eq!(second, format!("Your public ID: {PUBLIC}"));
    match plan(Command::Generate) {
        Plan::Print(first, second) => {
            assert_eq!(first, "Your SECRET ID: SecretKey(..)");
            assert!(second.starts_with("Your public ID: "));
            assert_eq!(second.len(), 16 + 64);
        }
        _ => panic!(),
    }
}

#[test]
fn one_hosts_or_joins() {
    let secret = SecretId::from_str(SECRET).unwrap();
    match plan(Command::Host { secret: Some(secret) }) {
        Plan::Call(Some(secret), Method::Host) => assert_eq!(secret.public().to_text(), PUBLIC),
        _ => panic!(),
    }
    assert!(matches!(plan(Command::Host { secret: None }), Plan::Call(None, Method::Host)));
    let id = PublicId::from_str(PUBLIC).unwrap();
    match plan(Command::Join { id }) {
        Plan::Call(None, Method::Join(other)) => assert_eq!(other, id),
        _ => panic!(),
    }
}

#[test]
fn a_telephone_shows_its_name_to_one_who_waits() {
    let secret = Secret::from_str(SECRET).unwrap();
    assert_eq!(show_phone_secret(&secret), format!("Your SECRET: {SECRET}"));
    match phone_plan(PhoneCommand::Host { secret: Some(secret) }) {
        PhonePlan::Host(instance, lines) => {
            assert_eq!(instance.secret().to_text(), SECRET);
            assert_eq!(lines, vec![format!("Your Node ID: {PUBLIC}")]);
        }
        _ => panic!(),
    }
    let node_id = PublicId::from_str(PUBLIC).unwrap();
    match phone_plan(PhoneCommand::Join { node_id }) {
        PhonePlan::Join(_, lines, other) => {
            assert!(lines.is_empty());
            assert_eq!(other, node_id);
        }
        _ => panic!(),
    }
}

#[test]
fn a_new_secret_of_a_telephone_is_shown_with_its_name() {
    match phone_plan(PhoneCommand::Generate) {
        PhonePlan::Print(lines) => {
            assert_eq!(lines.len(), 2);
            let secret = lines[0].strip_prefix("Your SECRET: ").unwrap();
            let name = lines[1].strip_prefix("Your Node ID: ").unwrap();
            assert_eq!(Secret::from_str(secret).unwrap().node_id().to_text(), name);
        }
        _ => panic!(),
    }
}

#[test]
fn the_first_telephone_shows_only_keys() {
    match bare_plan(PhoneCommand::Generate) {
        PhonePlan::Print(lines) => {
            assert_eq!(lines.len(), 1);
            assert_eq!(Secret::from_str(&lines[0]).unwrap().to_text(), lines[0]);
        }
        _ => panic!(),
    }
    let secret = Secret::from_str(SECRET).unwrap();
    match bare_plan(PhoneCommand::Host { secret: Some(secret) }) {
        PhonePlan::Host(_, lines) => assert_eq!(lines, vec![String::from(PUBLIC)]),
        _ => panic!(),
    }
    let node_id = PublicId::from_str(PUBLIC).unwrap();
    match bare_plan(PhoneCommand::Join { node_id }) {
        PhonePlan::Join(instance, lines, other) => {
            assert_eq!(lines, vec![instance.secret().node_id().to_text()]);
            assert_eq!(other, node_id);
        }
        _ => panic!(),
    }
}

#[test]
fn white_space_is_what_it_is_elsewhere() {
    for c in '\0'..=char::MAX {
        assert_eq!(is_white_space(c), c.is_whitespace());
    }
}

#[test]
fn a_key_is_found_between_white_space() {
    for text in ["M", " M\n", "\t\u{3000}M\r\n", "", "  ", "MM", " M M ", "\u{a0}"] {
        let trimmed: Vec<char> = text.trim().chars().collect();
        let expected = if trimmed.len() == 1 { Some(trimmed[0]) } else { None };
        assert_eq!(single_char(text), expected);
    }
}

#[test]
fn a_line_mutes_and_unmutes() {
    let mut peer = Peer::<f32>::new();
    assert_eq!(text(respond(line("M\n"), &mut peer)), "[ MUTED ]");
    assert!(peer.mute_handle().is_on());
    assert!(!peer.deafen_handle().is_on());
    assert_eq!(text(respond(line("M\n"), &mut peer)), "[ UNMUTED ]");
    assert!(!peer.mute_handle().is_on());
}

#[test]
fn a_line_deafens_and_undeafens() {
    let mut peer = Peer::<f32>::new();
    assert_eq!(text(respond(line("D\n"), &mut peer)), "[ DEAFENED ]");
    assert!(peer.deafen_handle().is_on());
    assert!(!peer.mute_handle().is_on());
    assert_eq!(text(respond(line(" D"), &mut peer)), "[ UNDEAFENED ]");
    assert!(!peer.deafen_handle().is_on());
}

#[test]
fn a_line_closes_the_call() {
    let mut peer = Peer::<f32>::new();
    assert!(matches!(respond(line("Q\n"), &mut peer), Response::Close));
    assert!(matches!(respond(line("q\n"), &mut peer), Response::Ignore));
    assert!(matches!(respond(line("\n"), &mut peer), Response::Ignore));
    assert!(matches!(respond(line("QQ"), &mut peer), Response::Ignore));
    assert!(matches!(respond(Input::End, &mut peer), Response::Stop));
    assert!(matches!(respond(Input::Failed, &mut peer), Response::Warn));
}

#[test]
fn a_report_has_three_paragraphs() {
    let report = Report::new(String::from("e"), String::from("b"), String::from("s"));
    assert_eq!(report.to_text(), "e\n\nb\n\ns");
}

#[test]
fn what_is_deferred_is_done_once() {
    let count = Cell::new(0);
    let mut deferer = Deferer::new(|| {
        count.set(count.get() + 1);
        Ok(())
    });
    assert_eq!(count.get(), 0);
    assert!(deferer.run().is_none());
    assert_eq!(count.get(), 1);
    assert!(deferer.run().is_none());
    assert_eq!(count.get(), 1);
}

#[test]
fn what_is_let_go_is_not_done() {
    let count = Cell::new(0);
    let mut deferer = Deferer::new(|| {
        count.set(count.get() + 1);
        Ok(())
    });
    deferer.forget();
    assert!(deferer.run().is_none());
    assert_eq!(count.get(), 0);
}

#[test]
fn what_is_deferred_and_fails_is_reported() {
    let mut deferer = Deferer::new(|| {
        Err(Report::new(String::from("e"), String::new(), String::new()))
    });
    assert_eq!(deferer.run().unwrap().error, "e");
    assert!(deferer.run().is_none());
}

#[test]
fn a_terminal_is_taken_over_and_given_back() {
    let mut renderer = Renderer::new();
    let mut steps = Vec::new();
    for _ in 0..3 {
        steps.push(renderer.step());
        renderer.advance(true);
    }
    assert_eq!(steps, vec![Step::Open, Step::EnableRaw, Step::EnterAlternate]);
    assert_eq!(renderer.step(), Step::Draw);
    renderer.deinit();
    assert_eq!(renderer.step(), Step::DisableRaw);
    renderer.advance(true);
    assert_eq!(renderer.step(), Step::LeaveAlternate);
    renderer.advance(true);
    assert_eq!(renderer.step(), Step::Closed);
}

#[test]
fn raw_mode_is_left_where_the_alternate_screen_cannot_be_had() {
    let mut renderer = Renderer::new();
    renderer.advance(true);
    renderer.advance(true);
    renderer.advance(false);
    assert_eq!(renderer.step(), Step::RevertRaw);
    renderer.advance(false);
    assert_eq!(renderer.step(), Step::NotOpened);
    renderer.deinit();
    assert_eq!(renderer.step(), Step::NotOpened);
}

#[test]
fn a_terminal_that_cannot_be_opened_is_left_alone() {
    let mut renderer = Renderer::new();
    renderer.advance(false);
    assert_eq!(renderer.step(), Step::NotOpened);
    let mut renderer = Renderer::new();
    renderer.advance(true);
    renderer.advance(false);
    assert_eq!(renderer.step(), Step::NotOpened);
}

#[test]
fn giving_back_stops_at_the_first_failure() {
    let mut renderer = Renderer::new();
    for _ in 0..3 {
        renderer.advance(true);
    }
    renderer.deinit();
    renderer.advance(false);
    assert_eq!(renderer.step(), Step::NotClosed);
}

#[test]
fn a_block_is_decoded_as_it_was_coded() {
    let mut values = [0.0f32; 20];
    for i in 0..20 {
        values[i] = i as f32;
    }
    let mut coded = [-1.0f32; 25];
    encode(&values, &mut coded, &|place: [f32; 5], block: [f32; 20]| {
        assert_eq!(place, [-1.0; 5]);
        ([0.5, 1.5, 2.5, 3.5, 4.5], block.map(|value| -value))
    });
    assert_eq!(&coded[0..5], &[0.5, 1.5, 2.5, 3.5, 4.5]);
    assert_eq!(coded[24], -19.0);
    let mut decoded = [0.0f32; 20];
    decode(&coded, &mut decoded, &|place: [f32; 5], block: [f32; 20]| {
        assert_eq!(place, [0.5, 1.5, 2.5, 3.5, 4.5]);
        block.map(|value| -value)
    });
    assert_eq!(decoded, values);
}
