use psp_gfx::buffer::PersistentBuffer;
use psp_gfx::color::Color32;
use psp_gfx::command::{BufferAddress, GuCommand, GuPrimitive};
use psp_gfx::vertex::{
    ColorFormat, NormalFormat, PositionFormat, TextureFormat, Transform, VertexFormat,
};
use psp_gfx::PspGfx;

fn textured_colored() -> VertexFormat {
    VertexFormat::new(
        TextureFormat::Float32,
        ColorFormat::Rgba8888,
        NormalFormat::Absent,
        PositionFormat::Float32,
        Transform::ThreeD,
    )
}

#[test]
fn one_frame_records_clear_draw_and_close() {
    let mut gfx = PspGfx::init(Some(0), Some(0x88000), Some(0x110000)).unwrap();
    let setup = gfx.take_commands();
    assert_eq!(setup.len(), 15);

    let mut frame = gfx.start_frame();
    frame.clear_color_depth(Color32::new(0, 0, 0, 255), 0xFFFF);
    let vertices = PersistentBuffer::new(textured_colored(), 0x0900_0000, 3);
    assert_eq!(frame.draw_array(GuPrimitive::Triangles, &vertices), Ok(()));
    let mut gfx = frame.finish();

    assert_eq!(
        gfx.take_commands(),
        vec![
            GuCommand::Start,
            GuCommand::ClearColor(0xFF00_0000),
            GuCommand::ClearDepth(0xFFFF),
            GuCommand::Clear(5),
            GuCommand::DrawArray {
                primitive: GuPrimitive::Triangles,
                vtype: 3 | (7 << 2) | (3 << 7),
                count: 3,
                indices: None,
                vertices: BufferAddress::Memory(0x0900_0000),
            },
            GuCommand::Finish,
            GuCommand::Sync,
            GuCommand::WaitVblankStart,
            GuCommand::SwapBuffers,
        ]
    );
}
