use css_animation::animation::{Animation, AnimationIterationCount, AnimationName};
use css_animation::easing::{EasingFunction, StepPosition};
use css_animation::keywords::{AnimationDirection, AnimationFillMode, AnimationPlayState};
use css_animation::list::parse_list;
use css_animation::number::CssNumber;
use css_animation::printer::{NumberScale, Piece, Printer};
use css_animation::time::Time;
use css_animation::token::{ParseError, Parser};
use css_animation::value::{CssList, CssValue};

fn number_css(v: f32) -> String {
    let s = cssparser::ToCss::to_css_string(&v);
    if v != 0.0 && v.abs() < 1.0 {
        if v < 0.0 {
            format!("-{}", s.trim_start_matches('-').trim_start_matches('0'))
        } else {
            s.trim_start_matches('0').to_string()
        }
    } else {
        s
    }
}

fn render(p: &Printer) -> String {
    let mut out = String::new();
    for piece in &p.pieces {
        match piece {
            Piece::Text(s) => out.push_str(s),
            Piece::Number { bits, scale } => {
                let v = f32::from_bits(*bits);
                let v = match scale {
                    NumberScale::Unit => v,
                    NumberScale::Thousandfold => v * 1000.0,
                    NumberScale::Thousandth => v / 1000.0,
                };
                out.push_str(&number_css(v));
            }
        }
    }
    out
}

fn num(v: f32) -> CssNumber {
    CssNumber::from_bits(v.to_bits())
}

fn parse_animation(s: &str) -> (Animation, usize, usize) {
    let mut p = Parser::new(s);
    let a = Animation::parse(&mut p).unwrap();
    (a, p.pos, p.tokens.len())
}

fn animation_css(a: &Animation, minify: bool) -> String {
    let mut p = Printer::new(minify);
    a.to_css(&mut p);
    render(&p)
}

fn name_of(a: &Animation) -> Option<String> {
    match &a.name {
        AnimationName::NoAnimation => None,
        AnimationName::Ident(s) => Some(s.clone()),
    }
}

fn time_secs(t: &Time) -> f32 {
    match t {
        Time::Seconds(n) => f32::from_bits(n.bits),
        Time::Milliseconds(n) => f32::from_bits(n.bits) / 1000.0,
    }
}

#[test]
fn parses_all_components_in_any_order() {
    let (a, pos, len) = parse_animation("infinite reverse 3s slide-in ease-in 1s both paused");
    assert_eq!(pos, len);
    assert_eq!(name_of(&a), Some("slide-in".to_string()));
    assert_eq!(time_secs(&a.duration), 3.0);
    assert_eq!(time_secs(&a.delay), 1.0);
    assert!(matches!(a.timing_function, EasingFunction::EaseIn));
    assert!(matches!(a.iteration_count, AnimationIterationCount::Infinite));
    assert_eq!(a.direction, AnimationDirection::Reverse);
    assert_eq!(a.fill_mode, AnimationFillMode::Both);
    assert_eq!(a.play_state, AnimationPlayState::Paused);
}

#[test]
fn empty_input_gives_default_animation() {
    let (a, pos, len) = parse_animation("");
    assert_eq!((pos, len), (0, 0));
    assert!(matches!(a.name, AnimationName::NoAnimation));
    assert_eq!(time_secs(&a.duration), 0.0);
    assert!(matches!(a.timing_function, EasingFunction::Ease));
    assert!(matches!(a.iteration_count, AnimationIterationCount::Number(n) if f32::from_bits(n.bits) == 1.0));
    assert_eq!(a.direction, AnimationDirection::Normal);
    assert_eq!(a.play_state, AnimationPlayState::Running);
    assert_eq!(a.fill_mode, AnimationFillMode::NoFill);
    assert_eq!(animation_css(&a, false), "none");
}

#[test]
fn parse_stops_at_a_repeated_component() {
    let (a, pos, len) = parse_animation("a 1s b");
    assert_eq!(name_of(&a), Some("a".to_string()));
    assert_eq!(time_secs(&a.duration), 1.0);
    assert_eq!(pos, 2);
    assert_eq!(len, 3);
}

#[test]
fn first_time_is_duration_second_is_delay() {
    let (a, _, _) = parse_animation("2s 500ms");
    assert_eq!(time_secs(&a.duration), 2.0);
    assert!(matches!(a.delay, Time::Milliseconds(n) if f32::from_bits(n.bits) == 500.0));
}

#[test]
fn quoted_name_is_a_name() {
    let (a, _, _) = parse_animation("\"my anim\" 1s");
    assert_eq!(name_of(&a), Some("my anim".to_string()));
    assert_eq!(animation_css(&a, false), "my\\ anim 1s");
}

#[test]
fn none_is_case_insensitive() {
    let (a, _, _) = parse_animation("NONE 2s");
    assert!(matches!(a.name, AnimationName::NoAnimation));
    assert_eq!(animation_css(&a, false), "none");
}

#[test]
fn serializes_only_non_default_components() {
    let (a, _, _) = parse_animation("slide-in 3s ease-in 1s infinite reverse both running");
    assert_eq!(animation_css(&a, false), "slide-in 3s ease-in 1s infinite reverse both");
    let (b, _, _) = parse_animation("fade");
    assert_eq!(animation_css(&b, false), "fade");
}

#[test]
fn duration_written_when_delay_is() {
    let (a, _, _) = parse_animation("fade 0s 2s");
    assert_eq!(animation_css(&a, false), "fade 0s 2s");
}

#[test]
fn name_that_looks_like_a_keyword_keeps_the_component() {
    let cases = [
        ("\"ease\"", "ease ease"),
        ("ease", "none"),
        ("\"infinite\"", "1 infinite"),
        ("\"reverse\"", "normal reverse"),
        ("\"both\"", "none both"),
        ("\"paused\"", "running paused"),
    ];
    for (input, expected) in cases {
        let (a, _, _) = parse_animation(input);
        assert_eq!(animation_css(&a, false), expected, "input {}", input);
        let (b, pos, len) = parse_animation(expected);
        assert_eq!(pos, len, "input {}", expected);
        assert_eq!(name_of(&b), name_of(&a), "input {}", expected);
        assert_eq!(animation_css(&b, false), expected, "input {}", expected);
    }
}

#[test]
fn keyword_name_with_defaults_reads_back() {
    let a = Animation {
        name: AnimationName::Ident("reverse".to_string()),
        duration: Time::Seconds(num(0.0)),
        timing_function: EasingFunction::Ease,
        iteration_count: AnimationIterationCount::Number(num(1.0)),
        direction: AnimationDirection::Normal,
        play_state: AnimationPlayState::Running,
        delay: Time::Seconds(num(0.0)),
        fill_mode: AnimationFillMode::NoFill,
    };
    let written = animation_css(&a, false);
    assert_eq!(written, "normal reverse");
    let (b, pos, len) = parse_animation(&written);
    assert_eq!(pos, len);
    assert!(b.equals(&a));
}

#[test]
fn written_animation_reads_back() {
    for input in ["slide-in 3s ease-in 1s infinite reverse both paused", "fade 0s 2s", "x steps(4, start) 2.5 alternate"] {
        let (a, _, _) = parse_animation(input);
        let written = animation_css(&a, false);
        let (b, pos, len) = parse_animation(&written);
        assert_eq!(pos, len, "written {}", written);
        assert!(b.equals(&a), "written {}", written);
    }
}

#[test]
fn default_bezier_is_left_out() {
    let (a, _, _) = parse_animation("fade cubic-bezier(0.25, 0.1, 0.25, 1)");
    assert!(matches!(a.timing_function, EasingFunction::CubicBezier(..)));
    assert_eq!(animation_css(&a, false), "fade");
}

fn easing(s: &str) -> Result<EasingFunction, ParseError> {
    let mut p = Parser::new(s);
    EasingFunction::parse(&mut p)
}

fn easing_css(e: &EasingFunction, minify: bool) -> String {
    let mut p = Printer::new(minify);
    e.to_css(&mut p);
    render(&p)
}

#[test]
fn easing_keywords_and_functions() {
    assert!(matches!(easing("LINEAR"), Ok(EasingFunction::Linear)));
    assert!(matches!(easing("step-start"), Ok(EasingFunction::Steps(1, StepPosition::Start))));
    assert!(matches!(easing("steps(3, jump-both)"), Ok(EasingFunction::Steps(3, StepPosition::JumpBoth))));
    assert!(matches!(easing("steps(3)"), Ok(EasingFunction::Steps(3, StepPosition::End))));
    let e = easing("cubic-bezier(0.1, 0.7, 1.0, 0.1)").unwrap();
    assert_eq!(easing_css(&e, false), "cubic-bezier(.1, .7, 1, .1)");
    assert_eq!(easing_css(&e, true), "cubic-bezier(.1,.7,1,.1)");
}

#[test]
fn easing_serialization_shortcuts() {
    let cases = [
        ("cubic-bezier(0.42, 0, 1, 1)", "ease-in"),
        ("cubic-bezier(0, 0, 0.58, 1)", "ease-out"),
        ("cubic-bezier(0.42, 0, 0.58, 1)", "ease-in-out"),
        ("steps(1, start)", "step-start"),
        ("steps(1, jump-end)", "step-end"),
        ("steps(4, end)", "steps(4)"),
        ("steps(4, jump-none)", "steps(4, jump-none)"),
    ];
    for (input, expected) in cases {
        let e = easing(input).unwrap();
        assert_eq!(easing_css(&e, false), expected, "input {}", input);
    }
}

#[test]
fn easing_errors() {
    assert!(matches!(easing(""), Err(ParseError::EndOfInput)));
    assert!(matches!(easing("cubic-bezier(0, 0, 1)"), Err(ParseError::EndOfInput)));
    assert!(matches!(easing("cubic-bezier(0, 0, 1, 1, 2)"), Err(ParseError::UnexpectedToken)));
    assert!(matches!(easing("bounce(1)"), Err(ParseError::UnexpectedToken)));
    assert!(matches!(easing("fast"), Err(ParseError::UnexpectedToken)));
    assert!(matches!(easing("steps(2.5)"), Err(ParseError::UnexpectedToken)));
    assert!(matches!(easing("3s"), Err(ParseError::UnexpectedToken)));
}

fn time(s: &str) -> Result<Time, ParseError> {
    let mut p = Parser::new(s);
    Time::parse(&mut p)
}

fn time_css(t: &Time) -> String {
    let mut p = Printer::new(false);
    t.to_css(&mut p);
    render(&p)
}

#[test]
fn time_parse_and_units() {
    assert!(matches!(time("2S"), Ok(Time::Seconds(_))));
    assert!(matches!(time("20Ms"), Ok(Time::Milliseconds(_))));
    assert!(matches!(time("3"), Err(ParseError::UnexpectedToken)));
    assert!(matches!(time("3px"), Err(ParseError::UnexpectedToken)));
    assert!(matches!(time(""), Err(ParseError::EndOfInput)));
}

#[test]
fn time_serialization_picks_shorter_unit() {
    assert_eq!(time_css(&Time::Seconds(num(0.05))), "50ms");
    assert_eq!(time_css(&Time::Seconds(num(0.5))), ".5s");
    assert_eq!(time_css(&Time::Seconds(num(0.0))), "0s");
    assert_eq!(time_css(&Time::Milliseconds(num(200.0))), ".2s");
    assert_eq!(time_css(&Time::Milliseconds(num(50.0))), "50ms");
    assert_eq!(time_css(&Time::Milliseconds(num(0.0))), "0s");
}

#[test]
fn iteration_count_parse() {
    let mut p = Parser::new("Infinite");
    assert!(matches!(AnimationIterationCount::parse(&mut p), Ok(AnimationIterationCount::Infinite)));
    let mut p = Parser::new("2.5");
    assert!(matches!(AnimationIterationCount::parse(&mut p), Ok(AnimationIterationCount::Number(n)) if f32::from_bits(n.bits) == 2.5));
    let mut p = Parser::new("0");
    assert!(matches!(AnimationIterationCount::parse(&mut p), Ok(AnimationIterationCount::Number(n)) if f32::from_bits(n.bits) == 0.0));
    let mut p = Parser::new("-1");
    assert!(matches!(AnimationIterationCount::parse(&mut p), Err(ParseError::UnexpectedToken)));
    assert_eq!(p.pos, 0);
    let mut p = Parser::new("-0.5");
    assert!(matches!(AnimationIterationCount::parse(&mut p), Err(ParseError::UnexpectedToken)));
    let mut p = Parser::new("forever");
    assert!(matches!(AnimationIterationCount::parse(&mut p), Err(ParseError::UnexpectedToken)));
    assert_eq!(p.pos, 0);
}

#[test]
fn name_parse() {
    let mut p = Parser::new("1s");
    assert!(matches!(AnimationName::parse(&mut p), Err(ParseError::UnexpectedToken)));
    let mut p = Parser::new("");
    assert!(matches!(AnimationName::parse(&mut p), Err(ParseError::EndOfInput)));
    let mut p = Parser::new("None");
    assert!(matches!(AnimationName::parse(&mut p), Ok(AnimationName::NoAnimation)));
}

#[test]
fn name_serialization_escapes() {
    let mut p = Printer::new(false);
    AnimationName::Ident("1abc".to_string()).to_css(&mut p);
    assert_eq!(render(&p), "\\31 abc");
    let mut p = Printer::new(false);
    AnimationName::Ident("bounce".to_string()).to_css(&mut p);
    assert_eq!(render(&p), "bounce");
}

#[test]
fn keyword_parse_string() {
    assert_eq!(AnimationDirection::parse_string("Alternate-Reverse"), Ok(AnimationDirection::AlternateReverse));
    assert_eq!(AnimationDirection::parse_string(" normal "), Ok(AnimationDirection::Normal));
    assert_eq!(AnimationDirection::parse_string("alternate reverse"), Err(ParseError::UnexpectedToken));
    assert_eq!(AnimationDirection::parse_string(""), Err(ParseError::EndOfInput));
    assert_eq!(AnimationFillMode::parse_string("NONE"), Ok(AnimationFillMode::NoFill));
    assert_eq!(AnimationPlayState::parse_string("paused"), Ok(AnimationPlayState::Paused));
    assert_eq!(AnimationPlayState::parse_string("stopped"), Err(ParseError::UnexpectedToken));
}

#[test]
fn keyword_written_reads_back() {
    for d in [
        AnimationDirection::Normal,
        AnimationDirection::Reverse,
        AnimationDirection::Alternate,
        AnimationDirection::AlternateReverse,
    ] {
        assert_eq!(AnimationDirection::parse_string(d.as_str()), Ok(d));
    }
    for f in [AnimationFillMode::NoFill, AnimationFillMode::Forwards, AnimationFillMode::Backwards, AnimationFillMode::Both] {
        assert_eq!(AnimationFillMode::parse_string(f.as_str()), Ok(f));
    }
    for s in [AnimationPlayState::Running, AnimationPlayState::Paused] {
        assert_eq!(AnimationPlayState::parse_string(s.as_str()), Ok(s));
    }
}

#[test]
fn animation_lists() {
    let list: CssList<Animation> = parse_list("a 1s, b 2s linear").unwrap();
    let list = Animation::as_items(&list);
    assert_eq!(list.len(), 2);
    assert_eq!(name_of(&list[1]), Some("b".to_string()));
    assert!(matches!(list[1].timing_function, EasingFunction::Linear));
    let list: CssList<Animation> = parse_list("a, , b").unwrap();
    let list = Animation::as_items(&list);
    assert_eq!(list.len(), 3);
    assert!(matches!(list[1].name, AnimationName::NoAnimation));
    assert!(matches!(parse_list::<Animation>("a 1s b"), Err(ParseError::UnexpectedToken)));
    assert!(matches!(parse_list::<Animation>("a -1"), Err(ParseError::UnexpectedToken)));
    let names: CssList<AnimationName> = parse_list("x, \"y\", none").unwrap();
    assert_eq!(AnimationName::as_items(&names).len(), 3);
    assert!(matches!(parse_list::<Time>("1s, 2px"), Err(ParseError::UnexpectedToken)));
}

#[test]
fn number_equality_is_that_of_floats() {
    assert!(num(0.0).num_eq(&num(-0.0)));
    assert!(!num(f32::NAN).num_eq(&num(f32::NAN)));
    assert!(num(1.5).num_eq(&num(1.5)));
    assert!(!num(1.5).num_eq(&num(2.5)));
    assert!(num(-0.0).is_zero());
    assert!(!num(f32::MIN_POSITIVE).is_zero());
}

#[test]
fn negative_step_count_is_written_in_decimal() {
    let e = easing("steps(-12, start)").unwrap();
    assert_eq!(easing_css(&e, false), "steps(-12, start)");
}

#[test]
fn step_counts_are_written_in_decimal_at_the_edges() {
    for (n, expected) in [
        (0, "steps(0)"),
        (7, "steps(7)"),
        (10, "steps(10)"),
        (1, "step-end"),
        (i32::MAX, "steps(2147483647)"),
        (i32::MIN, "steps(-2147483648)"),
    ] {
        let e = EasingFunction::Steps(n, StepPosition::End);
        assert_eq!(easing_css(&e, false), expected);
    }
}

#[test]
fn name_comes_first_unless_it_is_a_keyword() {
    let a = Animation {
        name: AnimationName::Ident("foo".to_string()),
        duration: Time::Seconds(num(2.0)),
        timing_function: EasingFunction::EaseIn,
        iteration_count: AnimationIterationCount::Infinite,
        direction: AnimationDirection::Alternate,
        play_state: AnimationPlayState::Paused,
        delay: Time::Seconds(num(1.0)),
        fill_mode: AnimationFillMode::Both,
    };
    assert_eq!(animation_css(&a, false), "foo 2s ease-in 1s infinite alternate both paused");
    let b = Animation {
        name: AnimationName::Ident("foo".to_string()),
        duration: Time::Seconds(num(0.0)),
        timing_function: EasingFunction::Ease,
        iteration_count: AnimationIterationCount::Number(num(1.0)),
        direction: AnimationDirection::Normal,
        play_state: AnimationPlayState::Running,
        delay: Time::Seconds(num(1.0)),
        fill_mode: AnimationFillMode::NoFill,
    };
    assert_eq!(animation_css(&b, false), "foo 0s 1s");
    let c = Animation { name: AnimationName::Ident("alternate".to_string()), ..a };
    assert_eq!(animation_css(&c, false), "2s ease-in 1s infinite alternate both paused alternate");
    let (d, pos, len) = parse_animation("2s ease-in 1s infinite alternate both paused alternate");
    assert_eq!(pos, len);
    assert!(d.equals(&c));
}

#[test]
fn names_are_referenced_in_a_css_module() {
    let mut p = Printer::for_css_module(false);
    let (a, _, _) = parse_animation("slide 1s");
    a.to_css(&mut p);
    AnimationName::NoAnimation.to_css(&mut p);
    AnimationName::Ident("fade".to_string()).to_css(&mut p);
    assert_eq!(p.css_module, Some(vec!["slide".to_string(), "fade".to_string()]));
    assert_eq!(render(&p), "slide 1snonefade");
    let mut q = Printer::new(false);
    a.to_css(&mut q);
    assert!(q.css_module.is_none());
}
