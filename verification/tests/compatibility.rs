use simulator::enforce_soroban_compatibility;
use simulator::vm::{float_violation_message, is_float_name};

const FLOAT_VIOLATION: &str =
    "floating-point instructions are not allowed under strict Soroban compatibility";

/// The magic number and the version of a module.
fn header() -> Vec<u8> {
    vec![0x00, 0x61, 0x73, 0x6d, 0x01, 0x00, 0x00, 0x00]
}

/// A section: its id, the length of its content, the content.
fn section(id: u8, content: &[u8]) -> Vec<u8> {
    assert!(content.len() < 0x80);
    let mut out = vec![id, content.len() as u8];
    out.extend_from_slice(content);
    out
}

/// A function body without locals that holds the given instruction bytes.
fn body(instructions: &[u8]) -> Vec<u8> {
    assert!(instructions.len() < 0x7f);
    let mut out = vec![instructions.len() as u8 + 1, 0x00];
    out.extend_from_slice(instructions);
    out
}

/// A module of `bodies.len()` functions of type `() -> ()`.
fn module_with_bodies(bodies: &[Vec<u8>]) -> Vec<u8> {
    let count = bodies.len() as u8;
    let mut out = header();
    out.extend(section(1, &[0x01, 0x60, 0x00, 0x00]));
    let mut functions = vec![count];
    for _ in bodies {
        functions.push(0x00);
    }
    out.extend(section(3, &functions));
    let mut code = vec![count];
    for b in bodies {
        code.extend_from_slice(b);
    }
    out.extend(section(10, &code));
    out
}

fn float_violation() -> Result<(), String> {
    Err(FLOAT_VIOLATION.to_string())
}

// i32.const 1, i32.const 2, i32.add, drop, block, nop, end, end
const INTEGER_BODY: [u8; 11] = [0x41, 0x01, 0x41, 0x02, 0x6a, 0x1a, 0x02, 0x40, 0x01, 0x0b, 0x0b];

#[test]
fn empty_module_is_accepted() {
    assert_eq!(enforce_soroban_compatibility(&header()), Ok(()));
}

#[test]
fn module_without_code_section_is_accepted() {
    let mut wasm = header();
    wasm.extend(section(1, &[0x01, 0x60, 0x00, 0x00]));
    assert_eq!(enforce_soroban_compatibility(&wasm), Ok(()));
}

#[test]
fn integer_and_control_flow_is_accepted() {
    let wasm = module_with_bodies(&[body(&INTEGER_BODY)]);
    assert_eq!(enforce_soroban_compatibility(&wasm), Ok(()));
}

#[test]
fn float32_add_is_rejected() {
    // local.get 0, local.get 0, f32.add, drop, end
    let wasm = module_with_bodies(&[body(&[0x20, 0x00, 0x20, 0x00, 0x92, 0x1a, 0x0b])]);
    assert_eq!(enforce_soroban_compatibility(&wasm), float_violation());
}

#[test]
fn float64_conversion_is_rejected() {
    // local.get 0, f64.convert_i64_s, drop, end
    let wasm = module_with_bodies(&[body(&[0x20, 0x00, 0xb9, 0x1a, 0x0b])]);
    assert_eq!(enforce_soroban_compatibility(&wasm), float_violation());
}

#[test]
fn float64_promotion_is_rejected() {
    // local.get 0, f64.promote_f32, drop, end
    let wasm = module_with_bodies(&[body(&[0x20, 0x00, 0xbb, 0x1a, 0x0b])]);
    assert_eq!(enforce_soroban_compatibility(&wasm), float_violation());
}

#[test]
fn float_constant_is_rejected() {
    // f64.const 0, drop, end
    let wasm = module_with_bodies(&[body(&[0x44, 0, 0, 0, 0, 0, 0, 0, 0, 0x1a, 0x0b])]);
    assert_eq!(enforce_soroban_compatibility(&wasm), float_violation());
}

#[test]
fn float_vector_instruction_is_rejected() {
    // local.get 0, local.get 0, f32x4.add, drop, end
    let wasm = module_with_bodies(&[body(&[0x20, 0x00, 0x20, 0x00, 0xfd, 0xe4, 0x01, 0x1a, 0x0b])]);
    assert_eq!(enforce_soroban_compatibility(&wasm), float_violation());
}

#[test]
fn instruction_named_by_integer_family_is_permitted() {
    // local.get 0, i64.trunc_f64_s, drop, end: the name begins with the
    // integer family of its result
    let wasm = module_with_bodies(&[body(&[0x20, 0x00, 0xb0, 0x1a, 0x0b])]);
    assert_eq!(enforce_soroban_compatibility(&wasm), Ok(()));
}

#[test]
fn float_in_last_function_is_rejected() {
    let wasm = module_with_bodies(&[
        body(&INTEGER_BODY),
        body(&INTEGER_BODY),
        body(&[0x20, 0x00, 0x20, 0x00, 0xa0, 0x1a, 0x0b]),
    ]);
    assert_eq!(enforce_soroban_compatibility(&wasm), float_violation());
}

#[test]
fn single_float_among_many_instructions_is_rejected() {
    let mut instructions = vec![0x01; 100];
    instructions[97] = 0x8b; // f32.abs
    instructions[99] = 0x0b;
    let wasm = module_with_bodies(&[body(&instructions)]);
    assert_eq!(enforce_soroban_compatibility(&wasm), float_violation());
    instructions[97] = 0x01;
    let wasm = module_with_bodies(&[body(&instructions)]);
    assert_eq!(enforce_soroban_compatibility(&wasm), Ok(()));
}

#[test]
fn truncated_code_section_is_a_decode_error() {
    let mut wasm = module_with_bodies(&[body(&INTEGER_BODY)]);
    wasm.truncate(wasm.len() - 4);
    let verdict = enforce_soroban_compatibility(&wasm);
    let reason = verdict.unwrap_err();
    assert_ne!(reason, FLOAT_VIOLATION);
    assert!(reason.starts_with("unexpected end-of-file (at offset 0x"), "{}", reason);
}

#[test]
fn bytes_that_are_no_module_are_rejected() {
    let verdict = enforce_soroban_compatibility(b"not a module at all");
    let reason = verdict.unwrap_err();
    assert!(reason.starts_with("magic header not detected"), "{}", reason);
    assert!(reason.ends_with("(at offset 0x0)"), "{}", reason);
}

#[test]
fn no_bytes_are_rejected() {
    let verdict = enforce_soroban_compatibility(&[]);
    assert_eq!(verdict, Err("unexpected end-of-file (at offset 0x0)".to_string()));
}

#[test]
fn unknown_opcode_is_a_decode_error() {
    let wasm = module_with_bodies(&[body(&[0xff, 0x0b])]);
    let reason = enforce_soroban_compatibility(&wasm).unwrap_err();
    assert_eq!(reason, "illegal opcode: 0xff (at offset 0x17)");
}

#[test]
fn body_cut_short_is_a_decode_error() {
    // the code section announces a body of three bytes and holds one
    let mut wasm = header();
    wasm.extend_from_slice(&[1, 4, 1, 0x60, 0, 0, 3, 2, 1, 0, 10, 5, 1, 3, 0]);
    assert_eq!(
        enforce_soroban_compatibility(&wasm),
        Err("unexpected end-of-file (at offset 0x16)".to_string())
    );
}

#[test]
fn instruction_behind_the_end_of_a_body_is_a_decode_error() {
    // end, nop, end
    let wasm = module_with_bodies(&[body(&[0x0b, 0x01, 0x0b])]);
    assert_eq!(
        enforce_soroban_compatibility(&wasm),
        Err("operators remaining after end of function body or expression (at offset 0x18)"
            .to_string())
    );
}

#[test]
fn unreadable_locals_are_a_decode_error() {
    // a body that announces one group of locals and ends within it
    let wasm = module_with_bodies(&[vec![0x02, 0x01, 0x01]]);
    assert_eq!(
        enforce_soroban_compatibility(&wasm),
        Err("unexpected end-of-file (at offset 0x18)".to_string())
    );
}

#[test]
fn verdict_is_the_same_on_a_second_call() {
    let clean = module_with_bodies(&[body(&INTEGER_BODY)]);
    assert_eq!(enforce_soroban_compatibility(&clean), enforce_soroban_compatibility(&clean));
    let float = module_with_bodies(&[body(&[0x20, 0x00, 0x20, 0x00, 0x92, 0x1a, 0x0b])]);
    assert_eq!(enforce_soroban_compatibility(&float), enforce_soroban_compatibility(&float));
    let mut broken = clean.clone();
    broken.truncate(broken.len() - 1);
    let first = enforce_soroban_compatibility(&broken);
    assert!(first.is_err());
    assert_eq!(first, enforce_soroban_compatibility(&broken));
}

#[test]
fn leading_float_hides_a_corrupted_later_body() {
    let wasm = module_with_bodies(&[body(&[0x92, 0x0b]), body(&[0xff, 0x0b])]);
    assert_eq!(enforce_soroban_compatibility(&wasm), float_violation());
}

#[test]
fn leading_float_hides_a_truncated_later_body() {
    let mut wasm = module_with_bodies(&[body(&[0x92, 0x0b]), body(&INTEGER_BODY)]);
    wasm.truncate(wasm.len() - 5);
    assert_eq!(enforce_soroban_compatibility(&wasm), float_violation());
}

#[test]
fn leading_float_hides_the_rest_of_its_body() {
    let wasm = module_with_bodies(&[body(&[0x92, 0xff, 0xff, 0x0b])]);
    assert_eq!(enforce_soroban_compatibility(&wasm), float_violation());
}

#[test]
fn corrupted_body_before_a_float_is_a_decode_error() {
    let wasm = module_with_bodies(&[body(&[0xff, 0x0b]), body(&[0x92, 0x0b])]);
    assert_eq!(
        enforce_soroban_compatibility(&wasm),
        Err("illegal opcode: 0xff (at offset 0x18)".to_string())
    );
}

#[test]
fn section_contents_outside_function_bodies_are_not_inspected() {
    // a type section that announces five types and holds none
    let mut wasm = header();
    wasm.extend(section(1, &[0x05]));
    assert_eq!(enforce_soroban_compatibility(&wasm), Ok(()));
}

#[test]
fn float_names_are_told_by_their_prefix() {
    assert!(is_float_name("F32Add"));
    assert!(is_float_name("F64ConvertI64S"));
    assert!(is_float_name("F64Const { value: Ieee64(0) }"));
    assert!(is_float_name("F32x4Add"));
    assert!(is_float_name("F32"));
    assert!(is_float_name("F64"));
    assert!(is_float_name("F32\u{e9}"));
}

#[test]
fn other_names_are_permitted() {
    assert!(!is_float_name(""));
    assert!(!is_float_name("F"));
    assert!(!is_float_name("F3"));
    assert!(!is_float_name("F6"));
    assert!(!is_float_name("F34"));
    assert!(!is_float_name("F62"));
    assert!(!is_float_name("f32Add"));
    assert!(!is_float_name("I32Add"));
    assert!(!is_float_name("I64TruncF64S"));
    assert!(!is_float_name("XF32"));
    assert!(!is_float_name("\u{e9}F32"));
    assert!(!is_float_name("Nop"));
    assert!(!is_float_name("End"));
}

#[test]
fn float_violation_message_is_fixed() {
    assert_eq!(float_violation_message(), FLOAT_VIOLATION);
}
