use tao::accelerator::{parse_accelerator, KeyEquivalent};
use tao::event::ModifiersState;

#[test]
fn parse_primary_shift_key() {
    let k = parse_accelerator("<Primary><Shift>G");
    assert_eq!(
        k.masks,
        Some(ModifiersState { shift: true, ctrl: false, alt: false, logo: true })
    );
    assert_eq!(k.key, vec!['G']);
}

#[test]
fn parse_bare_key() {
    let k = parse_accelerator("G");
    assert_eq!(k.masks, None);
    assert_eq!(k.key, vec!['G']);
}

#[test]
fn parse_shift_lowercase_key() {
    let k = parse_accelerator("<Shift>g");
    assert_eq!(
        k.masks,
        Some(ModifiersState { shift: true, ctrl: false, alt: false, logo: false })
    );
    assert_eq!(k.key, vec!['g']);
}

#[test]
fn parse_order_of_modifiers_is_irrelevant() {
    let a = parse_accelerator("<Primary><Shift>G");
    let b = parse_accelerator("<Shift><Primary>G");
    assert_eq!(a, b);
    let c = parse_accelerator("<Ctrl><Shift><Primary>Q");
    let d = parse_accelerator("<Primary><Ctrl><Shift>Q");
    assert_eq!(c, d);
}

#[test]
fn parse_ctrl_key() {
    let k = parse_accelerator("<Ctrl>K");
    assert_eq!(
        k.masks,
        Some(ModifiersState { shift: false, ctrl: true, alt: false, logo: false })
    );
    assert_eq!(k.key, vec!['K']);
}

#[test]
fn parse_all_three_modifiers() {
    let k = parse_accelerator("<Primary><Shift><Ctrl>T");
    assert_eq!(
        k.masks,
        Some(ModifiersState { shift: true, ctrl: true, alt: false, logo: true })
    );
    assert_eq!(k.key, vec!['T']);
}

#[test]
fn parse_empty_string() {
    let k = parse_accelerator("");
    assert_eq!(k.masks, None);
    assert_eq!(k.key, Vec::<char>::new());
}

#[test]
fn parse_unrecognized_token_folds_into_key() {
    let k = parse_accelerator("<Primary><Meta>X");
    assert_eq!(
        k.masks,
        Some(ModifiersState { shift: false, ctrl: false, alt: false, logo: true })
    );
    let expected: Vec<char> = "<Meta>X".chars().collect();
    assert_eq!(k.key, expected);
}

#[test]
fn parse_key_equivalent_clone_matches() {
    let k: KeyEquivalent = parse_accelerator("<Shift>S");
    let c = k.clone();
    assert_eq!(k, c);
}
