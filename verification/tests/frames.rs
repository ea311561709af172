use psp_gfx::buffer::{Buffer, BufferSource, PersistentBuffer};
use psp_gfx::color::Color32;
use psp_gfx::command::{
    BufferAddress, GuCommand, GuPrimitive, ShadingModel, TextureColorComponent, TextureEffect,
};
use psp_gfx::error::GfxError;
use psp_gfx::index::IndexFormat;
use psp_gfx::rect::Rect;
use psp_gfx::vertex::{
    ColorFormat, NormalFormat, PositionFormat, TextureFormat, Transform, VertexFormat,
};
use psp_gfx::{Frame, PspGfx};

const FBP0: usize = 0;
const FBP1: usize = 0x88000;
const ZBP: usize = 0x110000;

fn plain() -> VertexFormat {
    VertexFormat::new(
        TextureFormat::Absent,
        ColorFormat::Absent,
        NormalFormat::Absent,
        PositionFormat::Float32,
        Transform::ThreeD,
    )
}

fn context() -> PspGfx {
    let mut gfx = PspGfx::init(Some(FBP0), Some(FBP1), Some(ZBP)).unwrap();
    gfx.take_commands();
    gfx
}

fn frame() -> Frame {
    let mut frame = context().start_frame();
    assert_eq!(frame.take_commands(), vec![GuCommand::Start]);
    frame
}

/// What a stand-in for the engine remembers while it is fed a command list.
struct Backend {
    open: bool,
    draw: usize,
    shown: usize,
    closes: usize,
}

/// Feeds `commands` to the stand-in and checks the order of the life cycle
/// on the way: a list is opened only at rest, and closed by finish, sync,
/// vertical blank and swap, in that order and with nothing in between.
fn replay(backend: &mut Backend, commands: &[GuCommand]) {
    let mut i = 0;
    while i < commands.len() {
        match commands[i] {
            GuCommand::Start => {
                assert!(!backend.open, "a list was opened inside another");
                backend.open = true;
            }
            GuCommand::Finish => {
                assert!(backend.open, "a list was finished that was not open");
                assert_eq!(commands[i + 1], GuCommand::Sync);
                assert_eq!(commands[i + 2], GuCommand::WaitVblankStart);
                assert_eq!(commands[i + 3], GuCommand::SwapBuffers);
                let draw = backend.draw;
                backend.draw = backend.shown;
                backend.shown = draw;
                backend.open = false;
                backend.closes += 1;
                i += 3;
            }
            GuCommand::Sync | GuCommand::WaitVblankStart | GuCommand::SwapBuffers => {
                panic!("a closing step came out of order");
            }
            _ => assert!(backend.open, "an operation came outside a list"),
        }
        i += 1;
    }
}

#[test]
fn start_frame_opens_one_list() {
    let mut frame = context().start_frame();
    assert_eq!(frame.number(), 1);
    assert_eq!(frame.take_commands(), vec![GuCommand::Start]);
}

#[test]
fn finish_queues_the_close_sequence_once() {
    let mut gfx = frame().finish();
    assert_eq!(
        gfx.take_commands(),
        vec![
            GuCommand::Finish,
            GuCommand::Sync,
            GuCommand::WaitVblankStart,
            GuCommand::SwapBuffers,
        ]
    );
    assert_eq!(gfx.frames_closed(), 1);
}

#[test]
fn clear_color_sets_the_colour_then_clears() {
    let mut frame = frame();
    frame.clear_color(Color32::new(0x10, 0x20, 0x30, 0x40));
    assert_eq!(
        frame.take_commands(),
        vec![GuCommand::ClearColor(0x4030_2010), GuCommand::Clear(1)]
    );
}

#[test]
fn clear_depth_sets_the_depth_then_clears() {
    let mut frame = frame();
    frame.clear_depth(0x1234);
    assert_eq!(frame.take_commands(), vec![GuCommand::ClearDepth(0x1234), GuCommand::Clear(4)]);
}

#[test]
fn clear_color_depth_clears_both_at_once() {
    let mut frame = frame();
    frame.clear_color_depth(Color32::new(0, 0, 0, 255), 0xFFFF);
    assert_eq!(
        frame.take_commands(),
        vec![
            GuCommand::ClearColor(0xFF00_0000),
            GuCommand::ClearDepth(0xFFFF),
            GuCommand::Clear(5),
        ]
    );
}

#[test]
fn set_color_packs_the_colour() {
    let mut frame = frame();
    frame.set_color(Color32::new(1, 2, 3, 4));
    assert_eq!(frame.take_commands(), vec![GuCommand::Color(0x0403_0201)]);
}

#[test]
fn set_scissor_passes_the_rectangle_unclamped() {
    let mut frame = frame();
    frame.set_scissor(Rect::new(-10, 5000, i32::MAX, i32::MIN));
    frame.set_scissor(Rect::new(0, 0, 480, 272));
    assert_eq!(
        frame.take_commands(),
        vec![
            GuCommand::Scissor { x: -10, y: 5000, w: i32::MAX, h: i32::MIN },
            GuCommand::Scissor { x: 0, y: 0, w: 480, h: 272 },
        ]
    );
}

#[test]
fn texture_function_outlives_the_frame_and_shading_model_does_not() {
    let mut first = frame();
    assert_eq!(first.texture_function(), None);
    assert_eq!(first.shading_model(), None);
    first.set_texture_function(TextureEffect::Replace, TextureColorComponent::Rgba);
    first.set_shading_model(ShadingModel::Smooth);
    assert_eq!(
        first.take_commands(),
        vec![
            GuCommand::TexFunc(TextureEffect::Replace, TextureColorComponent::Rgba),
            GuCommand::ShadeModel(ShadingModel::Smooth),
        ]
    );
    assert_eq!(
        first.texture_function(),
        Some((TextureEffect::Replace, TextureColorComponent::Rgba))
    );
    assert_eq!(first.shading_model(), Some(ShadingModel::Smooth));

    let gfx = first.finish();
    assert_eq!(gfx.texture_function(), Some((TextureEffect::Replace, TextureColorComponent::Rgba)));

    let second = gfx.start_frame();
    assert_eq!(
        second.texture_function(),
        Some((TextureEffect::Replace, TextureColorComponent::Rgba))
    );
    assert_eq!(second.shading_model(), None);
}

#[test]
fn draw_array_counts_the_vertices() {
    let mut frame = frame();
    let vertices = PersistentBuffer::new(plain(), 0x0880_0000, 36);
    assert_eq!(frame.draw_array(GuPrimitive::TriangleStrip, &vertices), Ok(()));
    assert_eq!(
        frame.take_commands(),
        vec![GuCommand::DrawArray {
            primitive: GuPrimitive::TriangleStrip,
            vtype: 3 << 7,
            count: 36,
            indices: None,
            vertices: BufferAddress::Memory(0x0880_0000),
        }]
    );
}

#[test]
fn draw_array_of_nothing_is_still_issued() {
    let mut frame = frame();
    let vertices = PersistentBuffer::new(plain(), 64, 0);
    assert_eq!(frame.draw_array(GuPrimitive::Points, &vertices), Ok(()));
    assert_eq!(
        frame.take_commands(),
        vec![GuCommand::DrawArray {
            primitive: GuPrimitive::Points,
            vtype: 3 << 7,
            count: 0,
            indices: None,
            vertices: BufferAddress::Memory(64),
        }]
    );
}

#[test]
fn indexed_draw_counts_the_indices_not_the_vertices() {
    let mut frame = frame();
    let vertices = PersistentBuffer::new(plain(), 0x1000, 4);
    let indices = PersistentBuffer::new(IndexFormat::U16, 0x2000, 6);
    assert_eq!(frame.draw_array_indexed(GuPrimitive::Triangles, &vertices, &indices), Ok(()));
    assert_eq!(
        frame.take_commands(),
        vec![GuCommand::DrawArray {
            primitive: GuPrimitive::Triangles,
            vtype: (3 << 7) | (2 << 11),
            count: 6,
            indices: Some(BufferAddress::Memory(0x2000)),
            vertices: BufferAddress::Memory(0x1000),
        }]
    );
}

#[test]
fn indexed_draw_with_no_indices_draws_nothing() {
    let mut frame = frame();
    let vertices = PersistentBuffer::new(plain(), 0x1000, 100);
    let indices = PersistentBuffer::new(IndexFormat::U8, 0x2000, 0);
    assert_eq!(frame.draw_array_indexed(GuPrimitive::Lines, &vertices, &indices), Ok(()));
    assert_eq!(
        frame.take_commands(),
        vec![GuCommand::DrawArray {
            primitive: GuPrimitive::Lines,
            vtype: (3 << 7) | (1 << 11),
            count: 0,
            indices: Some(BufferAddress::Memory(0x2000)),
            vertices: BufferAddress::Memory(0x1000),
        }]
    );
}

#[test]
fn indexed_draw_with_more_indices_than_vertices_passes_through() {
    let mut frame = frame();
    let vertices = PersistentBuffer::new(plain(), 0x1000, 3);
    let indices = PersistentBuffer::new(IndexFormat::U16, 0x2000, 3000);
    assert_eq!(frame.draw_array_indexed(GuPrimitive::Triangles, &vertices, &indices), Ok(()));
    let commands = frame.take_commands();
    assert_eq!(commands.len(), 1);
    match commands[0] {
        GuCommand::DrawArray { count, .. } => assert_eq!(count, 3000),
        other => panic!("not a draw: {:?}", other),
    }
}

#[test]
fn get_memory_numbers_the_blocks_of_a_frame() {
    let mut frame = frame();
    let a = frame.get_memory(plain(), 3);
    let b = frame.get_memory(IndexFormat::U16, 12);
    assert_eq!(
        frame.take_commands(),
        vec![GuCommand::GetMemory { slot: 0, len: 3 }, GuCommand::GetMemory { slot: 1, len: 12 }]
    );
    assert_eq!(a.len(), 3);
    assert_eq!(*a.element_type_tag(), plain());
    assert_eq!(a.raw_address(), BufferSource::Scratch { frame: 1, slot: 0 });
    assert_eq!(b.len(), 12);
    assert_eq!(*b.element_type_tag(), IndexFormat::U16);
    assert_eq!(b.raw_address(), BufferSource::Scratch { frame: 1, slot: 1 });
}

#[test]
fn persistent_buffer_reports_what_it_was_given() {
    let b = PersistentBuffer::new(IndexFormat::U8, 0xABCD, 17);
    assert_eq!(b.len(), 17);
    assert_eq!(*b.element_type_tag(), IndexFormat::U8);
    assert_eq!(b.raw_address(), BufferSource::Memory(0xABCD));
}

#[test]
fn transient_buffers_draw_in_their_own_frame() {
    let mut frame = frame();
    let vertices = frame.get_memory(plain(), 4);
    let indices = frame.get_memory(IndexFormat::U8, 6);
    frame.take_commands();
    assert_eq!(frame.draw_array(GuPrimitive::TriangleFan, &vertices), Ok(()));
    assert_eq!(frame.draw_array_indexed(GuPrimitive::Triangles, &vertices, &indices), Ok(()));
    assert_eq!(
        frame.take_commands(),
        vec![
            GuCommand::DrawArray {
                primitive: GuPrimitive::TriangleFan,
                vtype: 3 << 7,
                count: 4,
                indices: None,
                vertices: BufferAddress::Scratch(0),
            },
            GuCommand::DrawArray {
                primitive: GuPrimitive::Triangles,
                vtype: (3 << 7) | (1 << 11),
                count: 6,
                indices: Some(BufferAddress::Scratch(1)),
                vertices: BufferAddress::Scratch(0),
            },
        ]
    );
}

#[test]
fn transient_buffer_is_refused_after_its_frame_closed() {
    let mut first = frame();
    let vertices = first.get_memory(plain(), 3);
    let indices = first.get_memory(IndexFormat::U16, 3);
    assert_eq!(first.draw_array(GuPrimitive::Triangles, &vertices), Ok(()));
    let mut gfx = first.finish();
    gfx.take_commands();

    let mut second = gfx.start_frame();
    assert_eq!(second.number(), 2);
    // The second frame has blocks of its own under the same numbers.
    let fresh_vertices = second.get_memory(plain(), 3);
    let fresh_indices = second.get_memory(IndexFormat::U16, 3);
    second.take_commands();

    assert_eq!(second.draw_array(GuPrimitive::Triangles, &vertices), Err(GfxError::StaleBuffer));
    assert_eq!(
        second.draw_array_indexed(GuPrimitive::Triangles, &vertices, &fresh_indices),
        Err(GfxError::StaleBuffer)
    );
    assert_eq!(
        second.draw_array_indexed(GuPrimitive::Triangles, &fresh_vertices, &indices),
        Err(GfxError::StaleBuffer)
    );
    assert_eq!(second.take_commands(), vec![]);

    assert_eq!(
        second.draw_array_indexed(GuPrimitive::Triangles, &fresh_vertices, &fresh_indices),
        Ok(())
    );
    assert_eq!(second.take_commands().len(), 1);
}

#[test]
fn two_frames_show_the_two_regions_in_turn() {
    let gfx = context();
    assert_eq!(gfx.display_buffer(), FBP1);
    assert_eq!(gfx.draw_buffer(), FBP0);

    let gfx = gfx.start_frame().finish();
    assert_eq!(gfx.display_buffer(), FBP0);
    assert_eq!(gfx.draw_buffer(), FBP1);

    let gfx = gfx.start_frame().finish();
    assert_eq!(gfx.display_buffer(), FBP1);
    assert_eq!(gfx.draw_buffer(), FBP0);
    assert_eq!(gfx.depth_buffer(), ZBP);
}

#[test]
fn backend_sees_the_shown_region_alternate() {
    let mut gfx = context();
    let mut backend = Backend { open: false, draw: FBP0, shown: FBP1, closes: 0 };
    for n in 1..=6usize {
        let mut frame = gfx.start_frame();
        frame.clear_color_depth(Color32::new(0, 0, 0, 255), 0xFFFF);
        gfx = frame.finish();
        replay(&mut backend, &gfx.take_commands());
        assert_eq!(backend.closes, n);
        assert_eq!(backend.shown, if n % 2 == 1 { FBP0 } else { FBP1 });
        assert_eq!(backend.shown, gfx.display_buffer());
        assert_eq!(backend.draw, gfx.draw_buffer());
    }
}

#[test]
fn every_frame_is_closed_once_and_in_order() {
    let mut gfx = context();
    let mut all = Vec::new();
    for n in 0..10usize {
        let mut frame = gfx.start_frame();
        for _ in 0..n {
            frame.clear_depth(0);
            frame.set_color(Color32::new(9, 9, 9, 9));
            let block = frame.get_memory(plain(), 3);
            assert_eq!(frame.draw_array(GuPrimitive::Triangles, &block), Ok(()));
        }
        gfx = frame.finish();
        all.extend(gfx.take_commands());
    }
    assert_eq!(gfx.frames_closed(), 10);

    let count = |c: GuCommand| all.iter().filter(|x| **x == c).count();
    assert_eq!(count(GuCommand::Start), 10);
    assert_eq!(count(GuCommand::Finish), 10);
    assert_eq!(count(GuCommand::Sync), 10);
    assert_eq!(count(GuCommand::WaitVblankStart), 10);
    assert_eq!(count(GuCommand::SwapBuffers), 10);

    let mut backend = Backend { open: false, draw: FBP0, shown: FBP1, closes: 0 };
    replay(&mut backend, &all);
    assert!(!backend.open);
    assert_eq!(backend.closes, 10);
}
