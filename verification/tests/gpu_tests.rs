use render_core::buffer::{Buffer, BufferAccess, BufferUsage};
use render_core::color::Color8Bit;
use render_core::device::Device;
use render_core::framebuffer::{Framebuffer, FramebufferDescriptor};
use render_core::pipeline::{ColorWrite, Pipeline, TextureFormat};
use render_core::render_handler::RenderHandler;
use render_core::render_pass::{LoadOp, RenderPass, RenderPassColorAttachmentDescriptor, StoreOp};
use render_core::shader::{Shader, ShaderDescriptor, ShaderSource, ShaderStage};
use render_core::texture::{Texture, TextureDescriptor, TextureUsage};

fn sample_texture_descriptor() -> TextureDescriptor {
    TextureDescriptor {
        format: TextureFormat::Rgba8Unorm,
        width: 64,
        height: 32,
        depth_or_array_layers: 1,
        mip_level_count: 1,
        sample_count: 1,
        usage: TextureUsage::RenderAttachment,
    }
}

#[test]
fn buffer_new_keeps_fields() {
    let b = Buffer::new(1024, BufferUsage::Vertex, BufferAccess::ReadWrite);
    assert_eq!(b.size, 1024);
    assert_eq!(b.usage, BufferUsage::Vertex);
    assert_eq!(b.access, BufferAccess::ReadWrite);
}

#[test]
fn buffer_upload_within_bounds() {
    let mut b = Buffer::new(8, BufferUsage::Storage, BufferAccess::Write);
    assert!(b.upload_data(4, &[1, 2, 3, 4]).is_ok());
}

#[test]
fn buffer_upload_past_end_is_rejected() {
    let mut b = Buffer::new(8, BufferUsage::Storage, BufferAccess::Write);
    assert!(b.upload_data(6, &[1, 2, 3]).is_err());
    assert!(b.upload_data(9, &[]).is_err());
}

#[test]
fn buffer_upload_at_end_of_empty_range() {
    let mut b = Buffer::new(8, BufferUsage::Uniform, BufferAccess::Write);
    assert!(b.upload_data(8, &[]).is_ok());
}

#[test]
fn buffer_read_within_bounds_is_empty_stub() {
    let b = Buffer::new(8, BufferUsage::Index, BufferAccess::Read);
    let bytes = b.read_data(0, 8).unwrap();
    assert!(bytes.is_empty());
}

#[test]
fn buffer_read_past_end_is_rejected() {
    let b = Buffer::new(8, BufferUsage::Index, BufferAccess::Read);
    assert!(b.read_data(1, 8).is_err());
}

#[test]
fn device_hands_out_resources() {
    let device = Device::new().unwrap();
    let buffer = device
        .create_buffer(256, BufferUsage::Uniform, BufferAccess::Write)
        .unwrap();
    assert_eq!(buffer.size, 256);
    let texture = device.create_texture(&sample_texture_descriptor()).unwrap();
    assert_eq!(texture.descriptor.width, 64);
    assert!(device.get_queue().is_ok());
    device.destroy_texture(texture);
    device.destroy_buffer(buffer);
}

#[test]
fn device_name_is_generic() {
    let device = Device::new().unwrap();
    assert_eq!(device.get_device_name(), "Generic GPU Device");
}

#[test]
fn texture_records_descriptor() {
    let mut t = Texture::new(&sample_texture_descriptor());
    assert_eq!(t.descriptor.height, 32);
    assert_eq!(t.descriptor.usage, TextureUsage::RenderAttachment);
    assert!(t.upload_data(&[0, 1, 2], 0, 3).is_ok());
}

#[test]
fn shader_records_descriptor() {
    let s = Shader::new(ShaderDescriptor {
        label: Some(String::from("main vertex shader")),
        source: ShaderSource::SpirV(vec![3, 2, 35, 7]),
        stage: ShaderStage::Vertex,
    });
    assert_eq!(s.descriptor.stage, ShaderStage::Vertex);
    assert_eq!(s.descriptor.label.as_deref(), Some("main vertex shader"));
    let ShaderSource::SpirV(words) = &s.descriptor.source;
    assert_eq!(words, &vec![3, 2, 35, 7]);
}

#[test]
fn framebuffer_records_descriptor() {
    let t = Texture::new(&sample_texture_descriptor());
    let fb = Framebuffer::new(FramebufferDescriptor {
        color_attachments: vec![Some(t), None],
        depth_stencil_attachment: None,
        width: 64,
        height: 32,
    })
    .unwrap();
    assert_eq!(fb.descriptor.color_attachments.len(), 2);
    assert!(fb.descriptor.color_attachments[1].is_none());
    assert_eq!(fb.descriptor.width, 64);
}

#[test]
fn render_pass_from_color_attachment() {
    let t = Texture::new(&sample_texture_descriptor());
    let attachment = RenderPassColorAttachmentDescriptor {
        attachment: t,
        load_op: LoadOp::Clear,
        store_op: StoreOp::Store,
        resolve_target: None,
        clear_value: Some(Color8Bit::rgb(0, 0, 0)),
    };
    assert_eq!(attachment.load_op, LoadOp::Clear);
    assert_eq!(attachment.store_op, StoreOp::Store);
    assert!(RenderPass::new().is_ok());
}

#[test]
fn render_handler_starts_empty() {
    let h = RenderHandler::new();
    assert!(h.pipeline.is_none());
    assert!(h.vertex_shader.is_none());
    assert!(h.fragment_shader.is_none());
}

#[test]
fn render_handler_binds_pipeline_and_shaders() {
    let mut h = RenderHandler::new();
    h.set_pipeline(Pipeline {});
    assert!(h.pipeline.is_some());
    assert!(h.vertex_shader.is_none());

    let vs = Shader::new(ShaderDescriptor {
        label: None,
        source: ShaderSource::SpirV(vec![]),
        stage: ShaderStage::Vertex,
    });
    let fs = Shader::new(ShaderDescriptor {
        label: None,
        source: ShaderSource::SpirV(vec![]),
        stage: ShaderStage::Fragment,
    });
    h.set_shaders(vs, fs);
    assert!(h.pipeline.is_some());
    assert_eq!(h.vertex_shader.unwrap().descriptor.stage, ShaderStage::Vertex);
    assert_eq!(
        h.fragment_shader.unwrap().descriptor.stage,
        ShaderStage::Fragment
    );
}

#[test]
fn color_write_masks() {
    assert_eq!(ColorWrite::empty().bits(), 0b0000);
    assert_eq!(ColorWrite::red().bits(), 0b0001);
    assert_eq!(ColorWrite::green().bits(), 0b0010);
    assert_eq!(ColorWrite::blue().bits(), 0b0100);
    assert_eq!(ColorWrite::alpha().bits(), 0b1000);
    assert_eq!(ColorWrite::all().bits(), 0b1111);
}

#[test]
fn color_write_set_operations() {
    let rg = ColorWrite::red().union(ColorWrite::green());
    assert_eq!(rg.bits(), 0b0011);
    assert!(rg.contains(ColorWrite::red()));
    assert!(!rg.contains(ColorWrite::blue()));
    assert!(ColorWrite::all().contains(rg));
    assert_eq!(rg.intersection(ColorWrite::green()), ColorWrite::green());
    assert_eq!(ColorWrite::all().union(ColorWrite::empty()), ColorWrite::all());
}
