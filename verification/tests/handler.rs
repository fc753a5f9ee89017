use css_animation::animation::{Animation, AnimationName};
use css_animation::handler::AnimationHandler;
use css_animation::list::parse_list;
use css_animation::prefix::{VendorPrefix, PREFIX_MOZ, PREFIX_NONE, PREFIX_WEBKIT};
use css_animation::property::{Property, PropertyId, UnparsedProperty};
use css_animation::value::{CssList, CssValue};

fn none() -> VendorPrefix {
    VendorPrefix::from_bits(PREFIX_NONE)
}

fn webkit() -> VendorPrefix {
    VendorPrefix::from_bits(PREFIX_WEBKIT)
}

fn longhands(vp: VendorPrefix) -> Vec<Property> {
    vec![
        Property::AnimationName(parse_list("a, b").unwrap(), vp),
        Property::AnimationDuration(parse_list("1s, 2s").unwrap(), vp),
        Property::AnimationTimingFunction(parse_list("ease, linear").unwrap(), vp),
        Property::AnimationIterationCount(parse_list("1, infinite").unwrap(), vp),
        Property::AnimationDirection(parse_list("normal, reverse").unwrap(), vp),
        Property::AnimationPlayState(parse_list("running, paused").unwrap(), vp),
        Property::AnimationDelay(parse_list("0s, 1s").unwrap(), vp),
        Property::AnimationFillMode(parse_list("none, both").unwrap(), vp),
    ]
}

fn run(handler: &mut AnimationHandler, props: &[Property]) -> Vec<Property> {
    let mut dest = Vec::new();
    for p in props {
        assert!(handler.handle_property(p, &mut dest));
    }
    handler.finalize(&mut dest);
    dest
}

fn names(list: &[AnimationName]) -> Vec<String> {
    list.iter()
        .map(|n| match n {
            AnimationName::NoAnimation => "none".to_string(),
            AnimationName::Ident(s) => s.clone(),
        })
        .collect()
}

#[test]
fn shorthand_is_written_back() {
    let list: CssList<Animation> = parse_list("a 1s, b 2s").unwrap();
    let mut h = AnimationHandler::new(None);
    let out = run(&mut h, &[Property::Animation(list, none())]);
    assert_eq!(out.len(), 1);
    match &out[0] {
        Property::Animation(l, p) => {
            assert_eq!(Animation::as_items(l).len(), 2);
            assert_eq!(*p, none());
            assert!(matches!(&Animation::as_items(l)[1].name, AnimationName::Ident(s) if s == "b"));
        }
        _ => panic!("expected the shorthand"),
    }
    assert!(!h.has_any && h.names.is_none());
}

#[test]
fn all_longhands_become_the_shorthand() {
    let mut h = AnimationHandler::new(None);
    let out = run(&mut h, &longhands(none()));
    assert_eq!(out.len(), 1);
    match &out[0] {
        Property::Animation(l, p) => {
            assert_eq!(*p, none());
            assert_eq!(Animation::as_items(l).len(), 2);
            assert!(matches!(&Animation::as_items(l)[0].name, AnimationName::Ident(s) if s == "a"));
        }
        _ => panic!("expected the shorthand"),
    }
}

#[test]
fn a_missing_longhand_keeps_longhands() {
    let mut props = longhands(none());
    props.pop();
    let mut h = AnimationHandler::new(None);
    let out = run(&mut h, &props);
    assert_eq!(out.len(), 7);
    assert!(matches!(&out[0], Property::AnimationName(l, _) if names(AnimationName::as_items(l)) == vec!["a", "b"]));
    assert!(matches!(&out[6], Property::AnimationDelay(..)));
}

#[test]
fn lengths_must_agree_for_the_shorthand() {
    let mut props = longhands(none());
    props[1] = Property::AnimationDuration(parse_list("1s").unwrap(), none());
    let mut h = AnimationHandler::new(None);
    let out = run(&mut h, &props);
    assert_eq!(out.len(), 8);
}

#[test]
fn same_prefix_later_declaration_wins() {
    let mut h = AnimationHandler::new(None);
    let out = run(
        &mut h,
        &[
            Property::AnimationName(parse_list("a").unwrap(), none()),
            Property::AnimationName(parse_list("b").unwrap(), none()),
        ],
    );
    assert_eq!(out.len(), 1);
    assert!(matches!(&out[0], Property::AnimationName(l, p) if names(AnimationName::as_items(l)) == vec!["b"] && *p == none()));
}

#[test]
fn prefixes_with_equal_values_merge() {
    let mut h = AnimationHandler::new(None);
    let out = run(
        &mut h,
        &[
            Property::AnimationName(parse_list("a").unwrap(), webkit()),
            Property::AnimationName(parse_list("a").unwrap(), none()),
        ],
    );
    assert_eq!(out.len(), 1);
    assert!(matches!(&out[0], Property::AnimationName(_, p) if p.bits == PREFIX_WEBKIT | PREFIX_NONE));
}

#[test]
fn conflicting_prefixes_keep_order() {
    let mut h = AnimationHandler::new(None);
    let mut dest = Vec::new();
    assert!(h.handle_property(&Property::AnimationName(parse_list("a").unwrap(), webkit()), &mut dest));
    assert!(dest.is_empty());
    assert!(h.handle_property(&Property::AnimationName(parse_list("b").unwrap(), none()), &mut dest));
    assert_eq!(dest.len(), 1);
    assert!(matches!(&dest[0], Property::AnimationName(l, p) if names(AnimationName::as_items(l)) == vec!["a"] && *p == webkit()));
    h.finalize(&mut dest);
    assert_eq!(dest.len(), 2);
    assert!(matches!(&dest[1], Property::AnimationName(l, p) if names(AnimationName::as_items(l)) == vec!["b"] && *p == none()));
}

#[test]
fn shorthand_with_extra_prefix_leaves_an_emptied_longhand() {
    let mut props = longhands(none());
    props[0] = Property::AnimationName(parse_list("a, b").unwrap(), VendorPrefix::from_bits(PREFIX_NONE | PREFIX_WEBKIT));
    let mut h = AnimationHandler::new(None);
    let out = run(&mut h, &props);
    assert_eq!(out.len(), 2);
    assert!(matches!(&out[0], Property::Animation(l, p) if Animation::as_items(l).len() == 2 && *p == none()));
    assert!(matches!(&out[1], Property::AnimationName(l, p) if AnimationName::as_items(l).is_empty() && *p == webkit()));
}

#[test]
fn targets_give_the_prefixes() {
    let targets = VendorPrefix::from_bits(PREFIX_NONE | PREFIX_MOZ);
    let mut h = AnimationHandler::new(Some(targets));
    let out = run(&mut h, &[Property::AnimationName(parse_list("a").unwrap(), none())]);
    assert!(matches!(&out[0], Property::AnimationName(_, p) if *p == targets));
    let mut h = AnimationHandler::new(Some(targets));
    let out = run(&mut h, &[Property::AnimationName(parse_list("a").unwrap(), webkit())]);
    assert!(matches!(&out[0], Property::AnimationName(_, p) if *p == webkit()));
}

#[test]
fn unparsed_flushes_and_is_prefixed() {
    let targets = VendorPrefix::from_bits(PREFIX_NONE | PREFIX_WEBKIT);
    let mut h = AnimationHandler::new(Some(targets));
    let mut dest = Vec::new();
    assert!(h.handle_property(&Property::AnimationDuration(parse_list("1s").unwrap(), none()), &mut dest));
    let unparsed = UnparsedProperty { property_id: PropertyId::AnimationName(none()), value: "var(--x)".to_string() };
    assert!(h.handle_property(&Property::Unparsed(unparsed), &mut dest));
    assert_eq!(dest.len(), 2);
    assert!(matches!(&dest[0], Property::AnimationDuration(_, p) if *p == targets));
    assert!(matches!(&dest[1], Property::Unparsed(u)
        if matches!(u.property_id, PropertyId::AnimationName(p) if p == targets) && u.value == "var(--x)"));
    assert!(!h.has_any);
}

#[test]
fn other_properties_are_not_handled() {
    let mut h = AnimationHandler::new(None);
    let mut dest = Vec::new();
    assert!(!h.handle_property(&Property::Other("color".to_string()), &mut dest));
    let unparsed = UnparsedProperty { property_id: PropertyId::Other("width".to_string()), value: "var(--w)".to_string() };
    assert!(!h.handle_property(&Property::Unparsed(unparsed), &mut dest));
    assert!(dest.is_empty());
    h.finalize(&mut dest);
    assert!(dest.is_empty());
}

#[test]
fn shorthand_conflict_flushes_longhands_first() {
    let mut h = AnimationHandler::new(None);
    let mut dest = Vec::new();
    assert!(h.handle_property(&Property::AnimationName(parse_list("x").unwrap(), webkit()), &mut dest));
    let list: CssList<Animation> = parse_list("y 1s").unwrap();
    assert!(h.handle_property(&Property::Animation(list, none()), &mut dest));
    assert_eq!(dest.len(), 1);
    assert!(matches!(&dest[0], Property::AnimationName(l, p) if names(AnimationName::as_items(l)) == vec!["x"] && *p == webkit()));
    h.finalize(&mut dest);
    assert_eq!(dest.len(), 2);
    assert!(matches!(&dest[1], Property::Animation(l, p) if Animation::as_items(l).len() == 1 && *p == none()));
}

#[test]
fn prefixed_longhands_become_a_prefixed_shorthand() {
    let mut h = AnimationHandler::new(None);
    let out = run(&mut h, &longhands(webkit()));
    assert_eq!(out.len(), 1);
    assert!(matches!(&out[0], Property::Animation(l, p) if Animation::as_items(l).len() == 2 && *p == webkit()));
}

#[test]
fn finalize_twice_writes_nothing_the_second_time() {
    let mut h = AnimationHandler::new(None);
    let mut dest = Vec::new();
    assert!(h.handle_property(&Property::AnimationDelay(parse_list("1s").unwrap(), none()), &mut dest));
    h.finalize(&mut dest);
    assert_eq!(dest.len(), 1);
    h.finalize(&mut dest);
    assert_eq!(dest.len(), 1);
    assert!(!h.has_any && h.delays.is_none());
}
