use rusty_ref::frame::{action_after_frame, frame_draws, DrawCall, FrameError, LoopAction};
use rusty_ref::geometry::{PixelPoint, ViewportState};
use rusty_ref::library::{Image, Library};
use rusty_ref::registry::{plan_component, BuildError, ComponentBuilder, ComponentPlan, ComponentRegistry};

struct CountingBuilder {
    allocations: usize,
    fail: bool,
}

impl ComponentBuilder<usize> for CountingBuilder {
    fn build(&mut self, image: &Image, plan: &ComponentPlan) -> Result<usize, BuildError> {
        if self.fail {
            return Err(BuildError::Allocation);
        }
        assert_eq!(plan.vertices.len(), 6);
        assert_eq!(plan.upload.bytes_per_row, 4 * image.width);
        self.allocations += 1;
        Ok(self.allocations)
    }
}

fn setup() -> (Library, u128, ViewportState) {
    let mut lib = Library::new();
    let img = Image::from_rgba8(PixelPoint { x: 100, y: 50 }, 2, 2, [255u8, 0, 0, 255].repeat(4)).unwrap();
    lib.insert_with_id(11, img).unwrap();
    (lib, 11, ViewportState::new(800, 600).unwrap())
}

#[test]
fn ensure_built_twice_allocates_once() {
    let (lib, id, vp) = setup();
    let mut reg: ComponentRegistry<usize> = ComponentRegistry::new();
    let mut b = CountingBuilder { allocations: 0, fail: false };
    assert_eq!(reg.ensure_built(id, &lib, &vp, &mut b), Ok(()));
    assert_eq!(reg.ensure_built(id, &lib, &vp, &mut b), Ok(()));
    assert_eq!(b.allocations, 1);
    assert_eq!(reg.len(), 1);
    assert_eq!(reg.id_at(0), id);
    assert_eq!(*reg.component(0), 1);
    assert_eq!(reg.find(id), Some(0));
}

#[test]
fn ensure_built_unknown_id_not_found() {
    let (lib, _, vp) = setup();
    let mut reg: ComponentRegistry<usize> = ComponentRegistry::new();
    let mut b = CountingBuilder { allocations: 0, fail: false };
    assert_eq!(reg.ensure_built(99, &lib, &vp, &mut b), Err(BuildError::NotFound));
    assert_eq!((reg.len(), b.allocations), (0, 0));
}

#[test]
fn ensure_built_failure_leaves_registry_empty() {
    let (lib, id, vp) = setup();
    let mut reg: ComponentRegistry<usize> = ComponentRegistry::new();
    let mut b = CountingBuilder { allocations: 0, fail: true };
    assert_eq!(reg.ensure_built(id, &lib, &vp, &mut b), Err(BuildError::Allocation));
    assert_eq!(reg.len(), 0);
    assert_eq!(reg.find(id), None);
}

#[test]
fn clear_allows_rebuild() {
    let (lib, id, vp) = setup();
    let mut reg: ComponentRegistry<usize> = ComponentRegistry::new();
    let mut b = CountingBuilder { allocations: 0, fail: false };
    reg.ensure_built(id, &lib, &vp, &mut b).unwrap();
    reg.clear();
    assert_eq!(reg.len(), 0);
    reg.ensure_built(id, &lib, &vp, &mut b).unwrap();
    assert_eq!(b.allocations, 2);
}

#[test]
fn plan_too_wide_texture() {
    let img = Image::from_rgba8(PixelPoint { x: 0, y: 0 }, 1 << 30, 0, Vec::new()).unwrap();
    let vp = ViewportState::new(800, 600).unwrap();
    assert!(matches!(plan_component(&img, &vp), Err(BuildError::TextureTooLarge)));
}

#[test]
fn empty_registry_frame_has_no_draws() {
    let reg: ComponentRegistry<usize> = ComponentRegistry::new();
    assert!(frame_draws(&reg).is_empty());
    assert_eq!(action_after_frame(Ok(())), LoopAction::Continue);
}

#[test]
fn frame_draws_one_per_component() {
    let (mut lib, id, vp) = setup();
    let other = Image::from_rgba8(PixelPoint { x: 0, y: 0 }, 1, 1, vec![0; 4]).unwrap();
    lib.insert_with_id(12, other).unwrap();
    let mut reg: ComponentRegistry<usize> = ComponentRegistry::new();
    let mut b = CountingBuilder { allocations: 0, fail: false };
    reg.ensure_built(id, &lib, &vp, &mut b).unwrap();
    reg.ensure_built(12, &lib, &vp, &mut b).unwrap();
    assert_eq!(
        frame_draws(&reg),
        vec![
            DrawCall { slot: 0, first_vertex: 0, vertex_count: 6 },
            DrawCall { slot: 1, first_vertex: 0, vertex_count: 6 },
        ]
    );
}

#[test]
fn frame_outcomes_map_to_actions() {
    assert_eq!(action_after_frame(Err(FrameError::Lost)), LoopAction::Reconfigure);
    assert_eq!(action_after_frame(Err(FrameError::OutOfMemory)), LoopAction::Exit);
    assert_eq!(action_after_frame(Err(FrameError::Timeout)), LoopAction::Report);
    assert_eq!(action_after_frame(Err(FrameError::Outdated)), LoopAction::Report);
}
