//! The console itself: the loading/linking pipeline that turns a cart
//! image into a live session, and the per-frame protocol that feeds time
//! and input into the session and reads the decoded screen back.

#![verifier::loop_isolation(false)]

use crate::bytes::u32_le;
use crate::engine::{
    call_canon_func, call_frame_func, canon_func_mark, elapsed_millis, engine_mark, engine_new,
    error_text, frame_func_mark, func_mark, global_name, instance_export_funcs,
    instance_get_canon_func, instance_get_frame_func, instant_now, linker_allow_shadowing,
    linker_define_func, linker_define_math, linker_define_memory, linker_define_stub,
    linker_define_zero_global, linker_engine, linker_instantiate, linker_names, linker_new,
    mem_read, mem_write, memory_capacity, memory_mark, memory_new, module_engine, module_new,
    store_engine, store_mark, store_new, stub_name,
};
use crate::error::Uw8Error;
use crate::input::gamepad_mask;
use crate::layout::{
    FRAMEBUFFER_OFFSET, GAMEPAD_OFFSET, MEMORY_BYTES, PALETTE_BYTES, PALETTE_OFFSET, SCREEN_PIXELS,
    TIME_OFFSET,
};
use crate::pixels::{decode_frame, decoded_image, lemma_decoded_pixels_opaque};
use vstd::prelude::*;

verus! {

/// Dispatcher code for the arccosine intrinsic.
pub const MATH_ACOS: u8 = 0;

/// Dispatcher code for the arcsine intrinsic.
pub const MATH_ASIN: u8 = 1;

/// Dispatcher code for the arctangent intrinsic.
pub const MATH_ATAN: u8 = 2;

/// Dispatcher code for the two-argument arctangent intrinsic.
pub const MATH_ATAN2: u8 = 3;

/// Dispatcher code for the cosine intrinsic.
pub const MATH_COS: u8 = 4;

/// Dispatcher code for the exponential intrinsic.
pub const MATH_EXP: u8 = 5;

/// Dispatcher code for the natural-logarithm intrinsic.
pub const MATH_LOG: u8 = 6;

/// Dispatcher code for the sine intrinsic.
pub const MATH_SIN: u8 = 7;

/// Dispatcher code for the tangent intrinsic.
pub const MATH_TAN: u8 = 8;

/// The screen before any frame has run: every pixel zero.
pub open spec fn blank_screen() -> Seq<u32> {
    Seq::new(SCREEN_PIXELS as nat, |i: int| 0u32)
}

/// The import names the resolver owes the cart, whatever the platform
/// exports on top of them: the 9 math intrinsics, the 55 reserved
/// stubs `reserved9` to `reserved63`, and the 16 reserved zero globals
/// `g_reserved0` to `g_reserved15`.
pub open spec fn reserved_namespace_defined(names: Set<Seq<char>>) -> bool {
    &&& names.contains("acos"@)
    &&& names.contains("asin"@)
    &&& names.contains("atan"@)
    &&& names.contains("atan2"@)
    &&& names.contains("cos"@)
    &&& names.contains("exp"@)
    &&& names.contains("log"@)
    &&& names.contains("sin"@)
    &&& names.contains("tan"@)
    &&& forall|i: u64| 9 <= i < 64 ==> names.contains(#[trigger] stub_name(i))
    &&& forall|i: u64| i < 16 ==> names.contains(#[trigger] global_name(i))
}

/// A freshly zeroed pixel buffer.
fn blank_buffer() -> (r: Vec<u32>)
    ensures
        r@ == blank_screen(),
{
    let mut r: Vec<u32> = Vec::new();
    let mut i: usize = 0;
    while i < SCREEN_PIXELS
        invariant
            i <= SCREEN_PIXELS,
            r@.len() == i,
            forall|k: int| 0 <= k < i ==> r@[k] == 0u32,
        decreases SCREEN_PIXELS - i,
    {
        r.push(0u32);
        i = i + 1;
    }
    proof {
        assert(r@ =~= blank_screen());
    }
    r
}

/// Turn an engine failure into the library's error, keeping the
/// engine's description.
fn map_engine<T>(r: Result<T, wasmtime::Error>) -> (out: Result<T, Uw8Error>)
    ensures
        r matches Ok(v) ==> out == Result::<T, Uw8Error>::Ok(v),
        r is Err ==> out is Err,
        out is Err ==> r is Err && (out matches Err(e) && e is Engine),
{
    match r {
        Ok(v) => Ok(v),
        Err(e) => Err(Uw8Error::Engine(error_text(&e))),
    }
}

/// One live session: the store that owns every instance, the shared
/// linear memory, the platform's finalize entry point, the cart's update
/// entry point, and the instant the session started.
struct Uw8Instance {
    store: wasmtime::Store<()>,
    memory: wasmtime::Memory,
    end_frame: wasmtime::TypedFunc<(), ()>,
    update: wasmtime::TypedFunc<(), ()>,
    start_time: std::time::Instant,
}

impl Uw8Instance {
    /// Every handle of the session belongs to its own store, and the
    /// memory has the fixed capacity of the layout.
    spec fn wf(self) -> bool {
        &&& memory_mark(self.memory) == store_mark(self.store)
        &&& memory_capacity(self.memory) == MEMORY_BYTES as nat
        &&& frame_func_mark(self.end_frame) == store_mark(self.store)
        &&& frame_func_mark(self.update) == store_mark(self.store)
    }
}

/// The console host: owns the engine, the compiled loader module, the
/// bundled platform image, the decoded pixel buffer, and the currently
/// loaded session, if any.
pub struct MicroW8 {
    engine: wasmtime::Engine,
    loader_module: wasmtime::Module,
    platform_image: Vec<u8>,
    window_buffer: Vec<u32>,
    instance: Option<Uw8Instance>,
}

impl MicroW8 {
    /// The console's invariant: the pixel buffer always covers the whole
    /// screen, the platform image fits into the linear memory, the
    /// loader module belongs to the console's engine, and a loaded
    /// session is well-formed.
    pub closed spec fn wf(self) -> bool {
        &&& self.window_buffer@.len() == SCREEN_PIXELS
        &&& self.platform_image@.len() <= MEMORY_BYTES
        &&& module_engine(self.loader_module) == engine_mark(self.engine)
        &&& match self.instance {
            Some(inst) => inst.wf(),
            None => true,
        }
    }

    /// Whether a session is loaded and ready to run frames.
    pub closed spec fn loaded(self) -> bool {
        self.instance is Some
    }

    /// The decoded pixel buffer as last produced.
    pub closed spec fn screen(self) -> Seq<u32> {
        self.window_buffer@
    }

    /// Create a console from the two host-bundled module images: the
    /// loader (a binary module compiled as it is) and the platform (a
    /// compact image the loader canonicalizes at every load). No session
    /// is loaded yet and the screen is blank.
    pub fn new(loader_image: &[u8], platform_image: Vec<u8>) -> (r: Result<MicroW8, Uw8Error>)
        ensures
            (r matches Err(e) && e == Uw8Error::TooLarge) <==> platform_image@.len()
                > MEMORY_BYTES,
            r matches Err(e) ==> e == Uw8Error::TooLarge || e is Engine,
            r matches Ok(c) ==> c.wf() && !c.loaded() && c.screen() == blank_screen(),
    {
        if platform_image.len() > MEMORY_BYTES {
            return Err(Uw8Error::TooLarge);
        }
        let engine = match map_engine(engine_new()) {
            Ok(e) => e,
            Err(e) => {
                return Err(e);
            },
        };
        let loader_module = match map_engine(module_new(&engine, loader_image)) {
            Ok(m) => m,
            Err(e) => {
                return Err(e);
            },
        };
        Ok(
            MicroW8 {
                engine,
                loader_module,
                platform_image,
                window_buffer: blank_buffer(),
                instance: None,
            },
        )
    }

    /// Drop any session and blank the screen; the console keeps its
    /// engine, loader module and platform image for the next load.
    pub fn reset(&mut self)
        requires
            old(self).wf(),
        ensures
            final(self).wf(),
            !final(self).loaded(),
            final(self).screen() == blank_screen(),
    {
        self.clear_session();
    }

    /// Drop any session and blank the screen, keeping everything else.
    fn clear_session(&mut self)
        ensures
            final(self).instance is None,
            final(self).screen() == blank_screen(),
            final(self).engine == old(self).engine,
            final(self).loader_module == old(self).loader_module,
            final(self).platform_image == old(self).platform_image,
    {
        self.instance = None;
        self.window_buffer = blank_buffer();
    }

    /// The canonical length the loader reported, read as an unsigned
    /// 32-bit value.
    pub open spec fn reported_len(reported: i32) -> int {
        if reported >= 0 {
            reported as int
        } else {
            reported as int + 0x1_0000_0000
        }
    }

    /// Interpret the loader's 32-bit result: read as an unsigned byte
    /// length, it is the canonical image's length, and one beyond the
    /// linear memory's capacity is rejected, since no well-formed
    /// loader leaves an image the memory cannot hold.
    fn canon_len_of(reported: i32) -> (r: Result<usize, Uw8Error>)
        ensures
            Self::reported_len(reported) > MEMORY_BYTES ==> r == Err::<usize, Uw8Error>(
                Uw8Error::BadLoaderResult,
            ),
            Self::reported_len(reported) <= MEMORY_BYTES ==> r == Ok::<usize, Uw8Error>(
                Self::reported_len(reported) as usize,
            ),
    {
        if reported >= 0 && reported <= MEMORY_BYTES as i32 {
            Ok(reported as usize)
        } else {
            Err(Uw8Error::BadLoaderResult)
        }
    }

    /// Run the loader's transform over one module image: place the image
    /// at offset 0 of the linear memory, call the transform with the
    /// image's length, take its 32-bit result as the canonical image's
    /// length, and read that image back from offset 0.
    fn canonicalize(
        store: &mut wasmtime::Store<()>,
        memory: wasmtime::Memory,
        transform: &wasmtime::TypedFunc<i32, i32>,
        raw: &[u8],
    ) -> (r: Result<Vec<u8>, Uw8Error>)
        requires
            memory_mark(memory) == store_mark(*old(store)),
            memory_capacity(memory) == MEMORY_BYTES as nat,
            canon_func_mark(*transform) == store_mark(*old(store)),
            raw@.len() <= MEMORY_BYTES,
        ensures
            store_mark(*final(store)) == store_mark(*old(store)),
            store_engine(*final(store)) == store_engine(*old(store)),
            r matches Ok(v) ==> v@.len() <= MEMORY_BYTES,
            r matches Err(e) ==> e is Engine || e is BadLoaderResult,
    {
        mem_write(memory, store, 0, raw);
        let reported = match map_engine(call_canon_func(transform, store, raw.len() as i32)) {
            Ok(n) => n,
            Err(e) => {
                return Err(e);
            },
        };
        let canon_len = match Self::canon_len_of(reported) {
            Ok(n) => n,
            Err(e) => {
                return Err(e);
            },
        };
        Ok(mem_read(memory, store, 0, canon_len))
    }

    /// Load a cart image: discard any current session, blank the screen,
    /// canonicalize the platform and the cart through the loader, build
    /// the cart's import namespace (the 9 math intrinsics backed by
    /// `math`, the 55 reserved stubs, the 16 reserved zero globals, and
    /// every export of the live platform, later registrations shadowing
    /// earlier names), instantiate everything against one fresh linear
    /// memory, and keep the new session. An image longer than the linear
    /// memory is rejected before any engine call; any engine failure
    /// leaves the console unloaded with a blank screen.
    pub fn load_from_memory<F: Fn(u8, u32, u32) -> u32 + Copy + Send + Sync + 'static>(
        &mut self,
        cart: &[u8],
        math: F,
    ) -> (r: Result<(), Uw8Error>)
        requires
            old(self).wf(),
        ensures
            final(self).wf(),
            final(self).screen() == blank_screen(),
            (cart@.len() > MEMORY_BYTES) <==> (r matches Err(e) && e == Uw8Error::TooLarge),
            r is Ok <==> final(self).loaded(),
    {
        self.clear_session();
        if cart.len() > MEMORY_BYTES {
            return Err(Uw8Error::TooLarge);
        }
        let mut store = store_new(&self.engine);
        let memory = match map_engine(memory_new(&mut store)) {
            Ok(m) => m,
            Err(e) => {
                return Err(e);
            },
        };
        let mut linker = linker_new(&self.engine);
        linker_allow_shadowing(&mut linker);
        match map_engine(linker_define_memory(&mut linker, &store, memory)) {
            Ok(_) => (),
            Err(e) => {
                return Err(e);
            },
        }
        let loader_instance = match map_engine(
            linker_instantiate(&linker, &mut store, &self.loader_module),
        ) {
            Ok(i) => i,
            Err(e) => {
                return Err(e);
            },
        };
        let transform = match map_engine(
            instance_get_canon_func(loader_instance, &mut store, "load_uw8"),
        ) {
            Ok(f) => f,
            Err(e) => {
                return Err(e);
            },
        };
        let platform_canon = match Self::canonicalize(
            &mut store,
            memory,
            &transform,
            self.platform_image.as_slice(),
        ) {
            Ok(v) => v,
            Err(e) => {
                return Err(e);
            },
        };
        let platform_module = match map_engine(module_new(&self.engine, platform_canon.as_slice())) {
            Ok(m) => m,
            Err(e) => {
                return Err(e);
            },
        };
        let cart_canon = match Self::canonicalize(&mut store, memory, &transform, cart) {
            Ok(v) => v,
            Err(e) => {
                return Err(e);
            },
        };
        let cart_module = match map_engine(module_new(&self.engine, cart_canon.as_slice())) {
            Ok(m) => m,
            Err(e) => {
                return Err(e);
            },
        };
        match self.define_namespace(&mut linker, &mut store, math) {
            Ok(_) => (),
            Err(e) => {
                return Err(e);
            },
        }
        let platform_instance = match map_engine(
            linker_instantiate(&linker, &mut store, &platform_module),
        ) {
            Ok(i) => i,
            Err(e) => {
                return Err(e);
            },
        };
        let exports = instance_export_funcs(platform_instance, &mut store);
        let mut k: usize = 0;
        while k < exports.len()
            invariant
                old(self).wf(),
                exports@.len() == exports.len(),
                forall|j: int| 0 <= j < exports@.len() ==> func_mark(exports@[j].1)
                    == store_mark(store),
                linker_engine(linker) == store_engine(store),
                reserved_namespace_defined(linker_names(linker)),
            decreases exports.len() - k,
        {
            let entry = &exports[k];
            match map_engine(linker_define_func(&mut linker, &store, entry.0.as_str(), entry.1)) {
                Ok(_) => (),
                Err(e) => {
                    return Err(e);
                },
            }
            k = k + 1;
        }
        let cart_instance = match map_engine(
            linker_instantiate(&linker, &mut store, &cart_module),
        ) {
            Ok(i) => i,
            Err(e) => {
                return Err(e);
            },
        };
        let end_frame = match map_engine(
            instance_get_frame_func(platform_instance, &mut store, "endFrame"),
        ) {
            Ok(f) => f,
            Err(e) => {
                return Err(e);
            },
        };
        let update = match map_engine(instance_get_frame_func(cart_instance, &mut store, "upd")) {
            Ok(f) => f,
            Err(e) => {
                return Err(e);
            },
        };
        let start_time = instant_now();
        self.instance = Some(Uw8Instance { store, memory, end_frame, update, start_time });
        Ok(())
    }

    /// Register the host side of the cart's import namespace: the 9
    /// math intrinsics, the 55 reserved no-op stubs `reserved9` to
    /// `reserved63`, and the 16 reserved constant-zero globals
    /// `g_reserved0` to `g_reserved15`.
    fn define_namespace<F: Fn(u8, u32, u32) -> u32 + Copy + Send + Sync + 'static>(
        &self,
        linker: &mut wasmtime::Linker<()>,
        store: &mut wasmtime::Store<()>,
        math: F,
    ) -> (r: Result<(), Uw8Error>)
        requires
            linker_engine(*old(linker)) == store_engine(*old(store)),
        ensures
            linker_engine(*final(linker)) == linker_engine(*old(linker)),
            store_mark(*final(store)) == store_mark(*old(store)),
            store_engine(*final(store)) == store_engine(*old(store)),
            r matches Err(e) ==> e is Engine,
            r is Ok ==> reserved_namespace_defined(linker_names(*final(linker))),
            r is Ok ==> linker_names(*old(linker)).subset_of(linker_names(*final(linker))),
    {
        match Self::define_one_math(linker, "acos", false, MATH_ACOS, math) {
            Ok(_) => (),
            Err(e) => {
                return Err(e);
            },
        }
        match Self::define_one_math(linker, "asin", false, MATH_ASIN, math) {
            Ok(_) => (),
            Err(e) => {
                return Err(e);
            },
        }
        match Self::define_one_math(linker, "atan", false, MATH_ATAN, math) {
            Ok(_) => (),
            Err(e) => {
                return Err(e);
            },
        }
        match Self::define_one_math(linker, "atan2", true, MATH_ATAN2, math) {
            Ok(_) => (),
            Err(e) => {
                return Err(e);
            },
        }
        match Self::define_one_math(linker, "cos", false, MATH_COS, math) {
            Ok(_) => (),
            Err(e) => {
                return Err(e);
            },
        }
        match Self::define_one_math(linker, "exp", false, MATH_EXP, math) {
            Ok(_) => (),
            Err(e) => {
                return Err(e);
            },
        }
        match Self::define_one_math(linker, "log", false, MATH_LOG, math) {
            Ok(_) => (),
            Err(e) => {
                return Err(e);
            },
        }
        match Self::define_one_math(linker, "sin", false, MATH_SIN, math) {
            Ok(_) => (),
            Err(e) => {
                return Err(e);
            },
        }
        match Self::define_one_math(linker, "tan", false, MATH_TAN, math) {
            Ok(_) => (),
            Err(e) => {
                return Err(e);
            },
        }
        let ghost after_math = linker_names(*linker);
        let mut j: u64 = 9;
        while j < 64
            invariant
                9 <= j <= 64,
                linker_engine(*linker) == linker_engine(*old(linker)),
                after_math.subset_of(linker_names(*linker)),
                forall|t: u64| 9 <= t < j ==> linker_names(*linker).contains(#[trigger] stub_name(t)),
            decreases 64 - j,
        {
            match map_engine(linker_define_stub(linker, j)) {
                Ok(_) => (),
                Err(e) => {
                    return Err(e);
                },
            }
            j = j + 1;
        }
        let ghost after_stubs = linker_names(*linker);
        let mut g: u64 = 0;
        while g < 16
            invariant
                g <= 16,
                linker_engine(*linker) == linker_engine(*old(linker)),
                store_mark(*store) == store_mark(*old(store)),
                store_engine(*store) == store_engine(*old(store)),
                after_stubs.subset_of(linker_names(*linker)),
                forall|t: u64| t < g ==> linker_names(*linker).contains(#[trigger] global_name(t)),
            decreases 16 - g,
        {
            match map_engine(linker_define_zero_global(linker, store, g)) {
                Ok(_) => (),
                Err(e) => {
                    return Err(e);
                },
            }
            g = g + 1;
        }
        Ok(())
    }

    /// Register one math intrinsic under its import name.
    fn define_one_math<F: Fn(u8, u32, u32) -> u32 + Copy + Send + Sync + 'static>(
        linker: &mut wasmtime::Linker<()>,
        name: &str,
        binary: bool,
        op: u8,
        math: F,
    ) -> (r: Result<(), Uw8Error>)
        ensures
            linker_engine(*final(linker)) == linker_engine(*old(linker)),
            r is Ok ==> linker_names(*final(linker)) == linker_names(*old(linker)).insert(name@),
            r is Err ==> linker_names(*final(linker)) == linker_names(*old(linker)),
            r matches Err(e) ==> e is Engine,
    {
        map_engine(linker_define_math(linker, name, binary, op, math))
    }

    /// Run one frame of a loaded session: write the elapsed milliseconds
    /// and the input bitmask into their fixed offsets, call the cart's
    /// update entry point, call the platform's finalize entry point, and
    /// decode the framebuffer and palette into the pixel buffer. Without
    /// a session this does nothing. A trap ends the session; the screen
    /// then keeps its last content.
    pub fn run_frame(&mut self, inputs: &[bool; 8]) -> (r: Result<(), Uw8Error>)
        requires
            old(self).wf(),
        ensures
            final(self).wf(),
            !old(self).loaded() ==> r is Ok && *final(self) == *old(self),
            old(self).loaded() && r is Ok ==> final(self).loaded(),
            old(self).loaded() && r is Ok ==> exists|fb: Seq<u8>, pal: Seq<u8>|
                fb.len() == SCREEN_PIXELS && pal.len() == PALETTE_BYTES && final(self).screen()
                    == decoded_image(fb, pal),
            old(self).loaded() && r is Ok ==> forall|i: int|
                0 <= i < SCREEN_PIXELS ==> final(self).screen()[i] >> 24 == 0xff,
            r is Err ==> !final(self).loaded() && final(self).screen() == old(self).screen(),
    {
        let inst_opt = self.instance.take();
        match inst_opt {
            None => Ok(()),
            Some(mut inst) => {
                let time = elapsed_millis(&inst.start_time);
                let mask = gamepad_mask(inputs);
                let time_bytes = u32_le(#[verifier::truncate] (time as u32));
                mem_write(inst.memory, &mut inst.store, TIME_OFFSET, time_bytes.as_slice());
                let mask_bytes = u32_le(mask);
                mem_write(inst.memory, &mut inst.store, GAMEPAD_OFFSET, mask_bytes.as_slice());
                match map_engine(call_frame_func(&inst.update, &mut inst.store)) {
                    Ok(_) => (),
                    Err(e) => {
                        return Err(e);
                    },
                }
                match map_engine(call_frame_func(&inst.end_frame, &mut inst.store)) {
                    Ok(_) => (),
                    Err(e) => {
                        return Err(e);
                    },
                }
                let fb = mem_read(inst.memory, &inst.store, FRAMEBUFFER_OFFSET, SCREEN_PIXELS);
                let pal = mem_read(inst.memory, &inst.store, PALETTE_OFFSET, PALETTE_BYTES);
                let decoded = decode_frame(fb.as_slice(), pal.as_slice());
                proof {
                    assert forall|i: int| 0 <= i < SCREEN_PIXELS implies decoded@[i] >> 24
                        == 0xff by {
                        lemma_decoded_pixels_opaque(fb@, pal@, i);
                    }
                }
                self.window_buffer = decoded;
                self.instance = Some(inst);
                Ok(())
            },
        }
    }

    /// Copy `len` bytes of the loaded session's linear memory starting
    /// at `offset`, or nothing when no session is loaded or the range
    /// does not fit into the memory.
    pub fn read_memory(&self, offset: usize, len: usize) -> (r: Option<Vec<u8>>)
        requires
            self.wf(),
        ensures
            r is Some <==> self.loaded() && offset + len <= MEMORY_BYTES,
            r matches Some(v) ==> v@.len() == len,
    {
        match &self.instance {
            None => None,
            Some(inst) => {
                if len <= MEMORY_BYTES && offset <= MEMORY_BYTES - len {
                    Some(mem_read(inst.memory, &inst.store, offset, len))
                } else {
                    None
                }
            },
        }
    }

    /// The decoded pixel buffer as last produced: one opaque pixel per
    /// screen position, row by row.
    pub fn pixels(&self) -> (r: &Vec<u32>)
        ensures
            r@ == self.screen(),
    {
        &self.window_buffer
    }
}

} // verus!

