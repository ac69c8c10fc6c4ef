use cortex_m::interrupt::{disable, enable, free, CriticalSection, Mask, Mutex, SoftMask};
use cortex_m::register::primask::{read, Primask};

/// A mask that records every state it was put in.
struct Traced {
    primask: Primask,
    trace: Vec<Primask>,
}

impl Traced {
    fn new(primask: Primask) -> Self {
        Traced { primask, trace: vec![primask] }
    }
}

impl Mask for Traced {
    fn state(&self) -> Primask {
        self.primask
    }

    fn read_mask(&self) -> Primask {
        self.primask
    }

    fn disable_all(&mut self) {
        self.primask = Primask::Inactive;
        self.trace.push(Primask::Inactive);
    }

    fn enable_all(&mut self) {
        self.primask = Primask::Active;
        self.trace.push(Primask::Active);
    }
}

#[test]
fn soft_mask_starts_in_the_given_state() {
    assert_eq!(read(&SoftMask::new(Primask::Active)), Primask::Active);
    assert_eq!(read(&SoftMask::new(Primask::Inactive)), Primask::Inactive);
}

#[test]
fn disable_masks_whatever_the_state_was() {
    let mut mask = SoftMask::new(Primask::Active);
    disable(&mut mask);
    assert_eq!(read(&mask), Primask::Inactive);
    disable(&mut mask);
    assert_eq!(read(&mask), Primask::Inactive);
}

#[test]
fn enable_unmasks_whatever_the_state_was() {
    let mut mask = SoftMask::new(Primask::Inactive);
    enable(&mut mask);
    assert_eq!(read(&mask), Primask::Active);
    enable(&mut mask);
    assert_eq!(read(&mask), Primask::Active);
}

#[test]
fn section_runs_with_interrupts_disabled() {
    let mut mask = SoftMask::new(Primask::Active);
    let seen = free(&mut mask, |m: &mut SoftMask, _cs: &CriticalSection| m.read_mask());
    assert_eq!(seen, Primask::Inactive);
}

#[test]
fn section_returns_what_the_closure_returns() {
    let mut mask = SoftMask::new(Primask::Active);
    let r = free(&mut mask, |_m: &mut SoftMask, _cs: &CriticalSection| 41u32 + 1);
    assert_eq!(r, 42);
}

#[test]
fn section_from_active_ends_active() {
    let mut mask = SoftMask::new(Primask::Active);
    free(&mut mask, |_m: &mut SoftMask, _cs: &CriticalSection| ());
    assert_eq!(mask.read_mask(), Primask::Active);
}

#[test]
fn section_from_inactive_ends_inactive() {
    let mut mask = SoftMask::new(Primask::Inactive);
    free(&mut mask, |_m: &mut SoftMask, _cs: &CriticalSection| ());
    assert_eq!(mask.read_mask(), Primask::Inactive);
}

#[test]
fn two_nested_sections() {
    // A finds the interrupts enabled; B, inside A, finds them disabled
    let mut mask = Traced::new(Primask::Active);
    let r = free(&mut mask, |a: &mut Traced, _cs: &CriticalSection| {
        assert_eq!(a.read_mask(), Primask::Inactive);
        let inner = free(a, |b: &mut Traced, _cs: &CriticalSection| {
            assert_eq!(b.read_mask(), Primask::Inactive);
            7u32
        });
        // B has returned, A is still open: B must not have re-enabled
        assert_eq!(a.read_mask(), Primask::Inactive);
        inner + 1
    });
    assert_eq!(r, 8);
    assert_eq!(mask.read_mask(), Primask::Active);
    // enabled before A, disabled by A, disabled again by B, enabled by A's
    // restore and by nothing else
    assert_eq!(
        mask.trace,
        vec![Primask::Active, Primask::Inactive, Primask::Inactive, Primask::Active]
    );
}

#[test]
fn nested_sections_from_inactive_never_enable() {
    let mut mask = Traced::new(Primask::Inactive);
    free(&mut mask, |a: &mut Traced, _cs: &CriticalSection| {
        free(a, |_b: &mut Traced, _cs: &CriticalSection| ());
    });
    assert_eq!(mask.read_mask(), Primask::Inactive);
    assert!(!mask.trace.contains(&Primask::Active));
}

fn nest(mask: &mut SoftMask, depth: u32) -> u32 {
    if depth == 0 {
        return 0;
    }
    free(mask, |m: &mut SoftMask, _cs: &CriticalSection| {
        assert_eq!(m.read_mask(), Primask::Inactive);
        let below = nest(m, depth - 1);
        assert_eq!(m.read_mask(), Primask::Inactive);
        below + 1
    })
}

#[test]
fn deep_nesting_restores_the_mask() {
    for start in [Primask::Active, Primask::Inactive] {
        for depth in 0..20 {
            let mut mask = SoftMask::new(start);
            assert_eq!(nest(&mut mask, depth), depth);
            assert_eq!(mask.read_mask(), start);
        }
    }
}

#[test]
fn sections_in_sequence_inside_a_section() {
    let mut mask = SoftMask::new(Primask::Active);
    free(&mut mask, |m: &mut SoftMask, _cs: &CriticalSection| {
        for _ in 0..3 {
            free(m, |_: &mut SoftMask, _cs: &CriticalSection| ());
            assert_eq!(m.read_mask(), Primask::Inactive);
        }
    });
    assert_eq!(mask.read_mask(), Primask::Active);
}

#[test]
fn mutex_lends_its_initial_value() {
    let mutex = Mutex::new(17u32);
    let mut mask = SoftMask::new(Primask::Active);
    let seen = free(&mut mask, |_m: &mut SoftMask, cs: &CriticalSection| *mutex.borrow(cs));
    assert_eq!(seen, 17);
}

#[test]
fn mutex_lends_a_value_that_is_not_copy() {
    let mutex = Mutex::new(String::from("shared"));
    let mut mask = SoftMask::new(Primask::Inactive);
    let len = free(&mut mask, |_m: &mut SoftMask, cs: &CriticalSection| {
        assert_eq!(mutex.borrow(cs), "shared");
        mutex.borrow(cs).len()
    });
    assert_eq!(len, 6);
}

#[test]
fn mutex_contents_change_through_a_cell() {
    let mutex = Mutex::new(std::cell::Cell::new(1u8));
    let mut mask = SoftMask::new(Primask::Active);
    free(&mut mask, |_m: &mut SoftMask, cs: &CriticalSection| mutex.borrow(cs).set(2));
    let seen = free(&mut mask, |_m: &mut SoftMask, cs: &CriticalSection| mutex.borrow(cs).get());
    assert_eq!(seen, 2);
}
