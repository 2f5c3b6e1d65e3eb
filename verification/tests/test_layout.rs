use inplace_box::lifecycle::step;
use inplace_box::Event;
use inplace_box::Layout;
use inplace_box::LayoutError;
use inplace_box::Phase;
use inplace_box::Room;
use inplace_box::StorageCell;

fn room(capacity: usize, align: usize) -> Room {
    Room { capacity, align, descriptor_size: 8, word: 8 }
}

#[test]
fn layout_of_types() {
    assert_eq!(Layout::of::<u32>(), Layout { size: 4, align: 4 });
    assert_eq!(Layout::of::<u8>(), Layout { size: 1, align: 1 });
    assert_eq!(Layout::of::<()>(), Layout { size: 0, align: 1 });
    assert_eq!(Layout::of::<[u16; 3]>(), Layout { size: 6, align: 2 });
}

#[test]
fn room_of_descriptor_types() {
    let word = core::mem::size_of::<usize>();
    let r = Room::of::<usize>(24);
    assert_eq!(r.capacity, 24);
    assert_eq!(r.align, core::mem::align_of::<usize>());
    assert_eq!(r.descriptor_size, word);
    assert_eq!(r.word, word);
    let r = Room::of::<u8>(3);
    assert_eq!(r, Room { capacity: 3, align: 1, descriptor_size: 1, word });
}

#[test]
fn check_says_which_rule_breaks() {
    assert_eq!(room(4, 8).check(Layout { size: 4, align: 8 }), Ok(()));
    assert_eq!(room(4, 8).check(Layout { size: 0, align: 1 }), Ok(()));
    assert_eq!(
        room(4, 8).check(Layout { size: 5, align: 1 }),
        Err(LayoutError::InsufficientSize)
    );
    assert_eq!(
        room(4, 8).check(Layout { size: 4, align: 16 }),
        Err(LayoutError::ExcessiveAlignment)
    );
    assert_eq!(
        room(4, 8).check(Layout { size: 5, align: 16 }),
        Err(LayoutError::InsufficientSize)
    );
    let odd = Room { capacity: 4, align: 8, descriptor_size: 16, word: 8 };
    assert_eq!(odd.check(Layout { size: 4, align: 8 }), Err(LayoutError::NotDynInterface));
    assert_eq!(odd.check(Layout { size: 4, align: 9 }), Err(LayoutError::ExcessiveAlignment));
}

#[test]
fn fits_in_agrees_with_check() {
    for size in 0..6 {
        for align in [1usize, 2, 4, 8, 16] {
            let l = Layout { size, align };
            assert_eq!(l.fits_in(&room(4, 8)), room(4, 8).check(l).is_ok());
        }
    }
    assert!(Layout { size: 4, align: 8 }.fits_in(&room(4, 8)));
    assert!(!Layout { size: 5, align: 8 }.fits_in(&room(4, 8)));
}

#[test]
fn messages() {
    assert_eq!(
        LayoutError::InsufficientSize.message(),
        "Insufficient size of `InplaceBox` to store the object"
    );
    assert_eq!(
        LayoutError::ExcessiveAlignment.message(),
        "Value alignment exceeds maximum allowed alignment"
    );
    assert_eq!(
        LayoutError::NotDynInterface.message(),
        "`InplaceBox` only works for `dyn Trait` types"
    );
}

#[test]
fn storage_cell_keeps_what_was_written() {
    let cell = StorageCell::<8>::write(&[1, 2, 3]);
    assert_eq!(cell.len(), 3);
    assert_eq!(cell.as_slice(), &[1u8, 2, 3][..]);
    let mut cell = StorageCell::<4>::write(&[9, 9, 9, 9]);
    cell.as_mut_slice()[3] = 1;
    assert_eq!(cell.as_slice(), &[9u8, 9, 9, 1][..]);
    assert_eq!(cell.as_mut_slice().len(), 4);
    let copy = cell;
    assert_eq!(copy.as_slice(), cell.as_slice());
    let empty = StorageCell::<0>::write(&[]);
    assert_eq!(empty.len(), 0);
}

#[test]
fn lifecycle_steps() {
    assert_eq!(step(Phase::Live, Event::Call), Some((Phase::Live, false)));
    assert_eq!(step(Phase::Live, Event::CallMut), Some((Phase::Live, false)));
    assert_eq!(step(Phase::Live, Event::CallOnce), Some((Phase::MovedOut, true)));
    assert_eq!(step(Phase::Live, Event::Release), Some((Phase::MovedOut, true)));
    assert_eq!(step(Phase::MovedOut, Event::Release), Some((Phase::MovedOut, false)));
    assert_eq!(step(Phase::MovedOut, Event::Call), None);
    assert_eq!(step(Phase::MovedOut, Event::CallMut), None);
    assert_eq!(step(Phase::MovedOut, Event::CallOnce), None);
}

fn destructions(events: &[Event]) -> Option<u32> {
    let mut phase = Phase::Live;
    let mut total = 0;
    for e in events {
        let (after, destroys) = step(phase, *e)?;
        phase = after;
        if destroys {
            total += 1;
        }
    }
    Some(total)
}

#[test]
fn destructor_runs_once_in_every_course() {
    // drop without invocation
    assert_eq!(destructions(&[Event::Release]), Some(1));
    // consume-once invocation, then the husk is released
    assert_eq!(destructions(&[Event::CallOnce, Event::Release]), Some(1));
    assert_eq!(destructions(&[Event::CallOnce]), Some(1));
    // repeatable invocation followed by drop
    assert_eq!(destructions(&[Event::CallMut, Event::Call, Event::CallMut, Event::Release]), Some(1));
    assert_eq!(destructions(&[Event::Release, Event::Release]), Some(1));
    // still alive
    assert_eq!(destructions(&[Event::Call, Event::CallMut]), Some(0));
    // a consumed callable admits no second call
    assert_eq!(destructions(&[Event::CallOnce, Event::CallOnce]), None);
    assert_eq!(destructions(&[Event::Release, Event::Call]), None);
}
