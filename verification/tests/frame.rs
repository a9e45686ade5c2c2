use microw8::{
    MATH_ACOS, MATH_ASIN, MATH_ATAN, MATH_ATAN2, MATH_COS, MATH_EXP, MATH_LOG, MATH_SIN, MATH_TAN,
    MicroW8, SCREEN_PIXELS, SCREEN_WIDTH, Uw8Error,
};

/// The host-side float implementations of the math intrinsics, working
/// on raw f32 bit patterns.
fn math(op: u8, a: u32, b: u32) -> u32 {
    let x = f32::from_bits(a);
    let y = f32::from_bits(b);
    let r = match op {
        MATH_ACOS => x.acos(),
        MATH_ASIN => x.asin(),
        MATH_ATAN => x.atan(),
        MATH_ATAN2 => x.atan2(y),
        MATH_COS => x.cos(),
        MATH_EXP => x.exp(),
        MATH_LOG => x.ln(),
        MATH_SIN => x.sin(),
        MATH_TAN => x.tan(),
        _ => 0.0,
    };
    r.to_bits()
}

/// A loader whose transform is the identity: the canonical image is the
/// raw image, so its length is returned unchanged.
fn loader_image() -> Vec<u8> {
    wat::parse_str(
        r#"(module
             (import "env" "memory" (memory 4 4))
             (func (export "load_uw8") (param i32) (result i32) local.get 0))"#,
    )
    .unwrap()
}

/// A platform exporting only the finalize entry point.
fn platform_image() -> Vec<u8> {
    wat::parse_str(
        r#"(module
             (import "env" "memory" (memory 4 4))
             (func (export "endFrame")))"#,
    )
    .unwrap()
}

/// A cart whose update does nothing.
fn noop_cart() -> Vec<u8> {
    wat::parse_str(
        r#"(module
             (import "env" "memory" (memory 4 4))
             (func (export "upd")))"#,
    )
    .unwrap()
}

fn console() -> MicroW8 {
    MicroW8::new(&loader_image(), platform_image()).unwrap()
}

fn le_u32(bytes: &[u8]) -> u32 {
    u32::from_le_bytes([bytes[0], bytes[1], bytes[2], bytes[3]])
}

#[test]
fn load_and_run_frame_succeeds_with_opaque_screen() {
    let mut c = console();
    c.load_from_memory(&noop_cart(), math).unwrap();
    c.run_frame(&[false; 8]).unwrap();
    let pixels = c.pixels();
    assert_eq!(pixels.len(), SCREEN_PIXELS);
    assert!(pixels.iter().all(|&p| p >> 24 == 0xff));
}

#[test]
fn framebuffer_byte_maps_to_palette_entry() {
    // the cart paints pixel (5, 2) with palette entry 3 = (10, 20, 30)
    let cart = wat::parse_str(
        r#"(module
             (import "env" "memory" (memory 4 4))
             (func (export "upd")
               (i32.store8 (i32.const 765) (i32.const 3))
               (i32.store8 (i32.const 76932) (i32.const 10))
               (i32.store8 (i32.const 76933) (i32.const 20))
               (i32.store8 (i32.const 76934) (i32.const 30))))"#,
    )
    .unwrap();
    let mut c = console();
    c.load_from_memory(&cart, math).unwrap();
    c.run_frame(&[false; 8]).unwrap();
    let pixels = c.pixels();
    assert_eq!(pixels[2 * SCREEN_WIDTH + 5], 0xff00_0000 | (10 << 16) | (20 << 8) | 30);
    assert_eq!(pixels[0], 0xff00_0000);
}

#[test]
fn time_is_nondecreasing_and_resets_on_load() {
    let mut c = console();
    c.load_from_memory(&noop_cart(), math).unwrap();
    c.run_frame(&[false; 8]).unwrap();
    let t1 = le_u32(&c.read_memory(64, 4).unwrap()) as i32;
    c.run_frame(&[false; 8]).unwrap();
    let t2 = le_u32(&c.read_memory(64, 4).unwrap()) as i32;
    assert!(t1 >= 0);
    assert!(t2 >= t1, "time must not decrease within a session");
    c.load_from_memory(&noop_cart(), math).unwrap();
    c.run_frame(&[false; 8]).unwrap();
    let t3 = le_u32(&c.read_memory(64, 4).unwrap()) as i32;
    assert!((0..10_000).contains(&t3), "time restarts near zero after a load");
}

#[test]
fn gamepad_bits_reach_memory_independently() {
    let mut c = console();
    c.load_from_memory(&noop_cart(), math).unwrap();
    for i in 0..8 {
        let mut inputs = [false; 8];
        inputs[i] = true;
        c.run_frame(&inputs).unwrap();
        let mask = le_u32(&c.read_memory(68, 4).unwrap());
        assert_eq!(mask, 1 << i, "input {i} must set exactly bit {i} at offset 68");
    }
    c.run_frame(&[false; 8]).unwrap();
    assert_eq!(le_u32(&c.read_memory(68, 4).unwrap()), 0);
}

#[test]
fn math_intrinsics_match_float_results() {
    let cart = wat::parse_str(
        r#"(module
             (import "env" "memory" (memory 4 4))
             (import "env" "atan2" (func $atan2 (param f32 f32) (result f32)))
             (import "env" "sin" (func $sin (param f32) (result f32)))
             (import "env" "cos" (func $cos (param f32) (result f32)))
             (import "env" "exp" (func $exp (param f32) (result f32)))
             (import "env" "log" (func $log (param f32) (result f32)))
             (import "env" "acos" (func $acos (param f32) (result f32)))
             (import "env" "asin" (func $asin (param f32) (result f32)))
             (import "env" "atan" (func $atan (param f32) (result f32)))
             (import "env" "tan" (func $tan (param f32) (result f32)))
             (func (export "upd")
               (f32.store (i32.const 256) (call $atan2 (f32.const 0) (f32.const 1)))
               (f32.store (i32.const 260) (call $atan2 (f32.const 1) (f32.const 0)))
               (f32.store (i32.const 264) (call $sin (f32.const 0.5)))
               (f32.store (i32.const 268) (call $cos (f32.const 0.5)))
               (f32.store (i32.const 272) (call $exp (f32.const 1)))
               (f32.store (i32.const 276) (call $log (f32.const 1)))
               (f32.store (i32.const 280) (call $acos (f32.const 1)))
               (f32.store (i32.const 284) (call $asin (f32.const 1)))
               (f32.store (i32.const 288) (call $atan (f32.const 1)))
               (f32.store (i32.const 292) (call $tan (f32.const 0.25)))))"#,
    )
    .unwrap();
    let mut c = console();
    c.load_from_memory(&cart, math).unwrap();
    c.run_frame(&[false; 8]).unwrap();
    let read_f32 = |c: &MicroW8, off: usize| f32::from_bits(le_u32(&c.read_memory(off, 4).unwrap()));
    assert_eq!(read_f32(&c, 256), 0.0f32.atan2(1.0));
    assert_eq!(read_f32(&c, 260), 1.0f32.atan2(0.0));
    assert_eq!(read_f32(&c, 264), 0.5f32.sin());
    assert_eq!(read_f32(&c, 268), 0.5f32.cos());
    assert_eq!(read_f32(&c, 272), 1.0f32.exp());
    assert_eq!(read_f32(&c, 276), 0.0);
    assert_eq!(read_f32(&c, 280), 1.0f32.acos());
    assert_eq!(read_f32(&c, 284), 1.0f32.asin());
    assert_eq!(read_f32(&c, 288), 1.0f32.atan());
    assert_eq!(read_f32(&c, 292), 0.25f32.tan());
}

#[test]
fn reserved_stubs_and_globals() {
    let cart = wat::parse_str(
        r#"(module
             (import "env" "memory" (memory 4 4))
             (import "env" "reserved9" (func $r9))
             (import "env" "reserved63" (func $r63))
             (import "env" "g_reserved0" (global $g0 i32))
             (import "env" "g_reserved15" (global $g15 i32))
             (func (export "upd")
               (call $r9)
               (call $r63)
               (i32.store (i32.const 256) (i32.add (global.get $g0) (i32.const 7)))
               (i32.store (i32.const 300) (global.get $g15))))"#,
    )
    .unwrap();
    let mut c = console();
    c.load_from_memory(&cart, math).unwrap();
    c.run_frame(&[false; 8]).unwrap();
    // the globals read back as zero
    assert_eq!(le_u32(&c.read_memory(256, 4).unwrap()), 7);
    assert_eq!(le_u32(&c.read_memory(300, 4).unwrap()), 0);
    // the stub calls left the rest of memory untouched
    assert!(c.read_memory(1000, 100).unwrap().iter().all(|&b| b == 0));
}

#[test]
fn platform_export_shadows_reserved_stub() {
    let platform = wat::parse_str(
        r#"(module
             (import "env" "memory" (memory 4 4))
             (func (export "endFrame"))
             (func (export "reserved9") (i32.store8 (i32.const 260) (i32.const 42))))"#,
    )
    .unwrap();
    let cart = wat::parse_str(
        r#"(module
             (import "env" "memory" (memory 4 4))
             (import "env" "reserved9" (func $r9))
             (func (export "upd") (call $r9)))"#,
    )
    .unwrap();
    let mut c = MicroW8::new(&loader_image(), platform).unwrap();
    c.load_from_memory(&cart, math).unwrap();
    c.run_frame(&[false; 8]).unwrap();
    assert_eq!(c.read_memory(260, 1).unwrap()[0], 42, "platform export wins over the stub");
}

#[test]
fn oversized_image_is_rejected_before_any_engine_call() {
    let mut c = console();
    c.load_from_memory(&noop_cart(), math).unwrap();
    c.run_frame(&[false; 8]).unwrap();
    let oversized = vec![0u8; 4 * 65536 + 1];
    assert_eq!(c.load_from_memory(&oversized, math), Err(Uw8Error::TooLarge));
    // the failed load leaves the console unloaded with a blanked screen
    assert!(c.read_memory(0, 1).is_none());
    assert!(c.pixels().iter().all(|&p| p == 0));
}

#[test]
fn invalid_cart_reports_engine_error() {
    let mut c = console();
    let r = c.load_from_memory(&[1, 2, 3, 4], math);
    assert!(matches!(r, Err(Uw8Error::Engine(_))));
    assert!(c.read_memory(0, 1).is_none());
}

#[test]
fn missing_update_export_fails_the_load() {
    let cart = wat::parse_str(
        r#"(module
             (import "env" "memory" (memory 4 4))
             (func (export "something_else")))"#,
    )
    .unwrap();
    let mut c = console();
    assert!(matches!(c.load_from_memory(&cart, math), Err(Uw8Error::Engine(_))));
}

#[test]
fn trapping_cart_ends_the_session() {
    let cart = wat::parse_str(
        r#"(module
             (import "env" "memory" (memory 4 4))
             (func (export "upd") unreachable))"#,
    )
    .unwrap();
    let mut c = console();
    c.load_from_memory(&cart, math).unwrap();
    let r = c.run_frame(&[false; 8]);
    assert!(matches!(r, Err(Uw8Error::Engine(_))));
    assert!(c.read_memory(0, 1).is_none(), "a trap unloads the session");
    // a frame without a session is a no-op
    c.run_frame(&[false; 8]).unwrap();
}

#[test]
fn second_load_discards_the_first_session() {
    let cart_a = wat::parse_str(
        r#"(module
             (import "env" "memory" (memory 4 4))
             (func (export "upd")
               (i32.store (i32.const 256) (i32.const 99))
               (i32.store8 (i32.const 120) (i32.const 1))
               (i32.store8 (i32.const 76924) (i32.const 200))))"#,
    )
    .unwrap();
    let mut c = console();
    c.load_from_memory(&cart_a, math).unwrap();
    c.run_frame(&[false; 8]).unwrap();
    assert_eq!(le_u32(&c.read_memory(256, 4).unwrap()), 99);
    assert_ne!(c.pixels()[0], 0xff00_0000);

    c.load_from_memory(&noop_cart(), math).unwrap();
    // nothing of the first session survives: fresh zero memory, blank screen
    assert_eq!(le_u32(&c.read_memory(256, 4).unwrap()), 0);
    assert!(c.pixels().iter().all(|&p| p == 0));
    c.run_frame(&[false; 8]).unwrap();
    assert_eq!(c.pixels()[0], 0xff00_0000);
}

#[test]
fn reset_unloads_and_blanks() {
    let mut c = console();
    c.load_from_memory(&noop_cart(), math).unwrap();
    c.run_frame(&[false; 8]).unwrap();
    c.reset();
    assert!(c.read_memory(0, 1).is_none());
    assert!(c.pixels().iter().all(|&p| p == 0));
    // the console can load again after a reset
    c.load_from_memory(&noop_cart(), math).unwrap();
    c.run_frame(&[false; 8]).unwrap();
}

#[test]
fn loader_reporting_oversized_length_is_rejected() {
    let bad_loader = wat::parse_str(
        r#"(module
             (import "env" "memory" (memory 4 4))
             (func (export "load_uw8") (param i32) (result i32) i32.const 2147483647))"#,
    )
    .unwrap();
    let mut c = MicroW8::new(&bad_loader, platform_image()).unwrap();
    assert_eq!(c.load_from_memory(&noop_cart(), math), Err(Uw8Error::BadLoaderResult));
    assert!(c.read_memory(0, 1).is_none());
}

#[test]
fn loader_reporting_negative_length_is_rejected() {
    // -1 reads as the unsigned length 4294967295, beyond the memory
    let bad_loader = wat::parse_str(
        r#"(module
             (import "env" "memory" (memory 4 4))
             (func (export "load_uw8") (param i32) (result i32) i32.const -1))"#,
    )
    .unwrap();
    let mut c = MicroW8::new(&bad_loader, platform_image()).unwrap();
    assert_eq!(c.load_from_memory(&noop_cart(), math), Err(Uw8Error::BadLoaderResult));
}

#[test]
fn oversized_platform_is_rejected() {
    let platform = vec![0u8; 4 * 65536 + 1];
    assert!(matches!(MicroW8::new(&loader_image(), platform), Err(Uw8Error::TooLarge)));
}

#[test]
fn invalid_loader_reports_engine_error() {
    let r = MicroW8::new(&[0xde, 0xad], platform_image());
    assert!(matches!(r, Err(Uw8Error::Engine(_))));
}

#[test]
fn read_memory_bounds() {
    let mut c = console();
    assert!(c.read_memory(0, 4).is_none(), "nothing to read before a load");
    c.load_from_memory(&noop_cart(), math).unwrap();
    assert_eq!(c.read_memory(0, 4).unwrap().len(), 4);
    assert_eq!(c.read_memory(4 * 65536, 0).unwrap().len(), 0);
    assert!(c.read_memory(4 * 65536, 1).is_none());
    assert!(c.read_memory(usize::MAX, 2).is_none());
}
