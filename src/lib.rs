//! An image gateway core: decodes PNG and JPEG bytes into RGBA pixel buffers,
//! derives AVIF encode parameters, and maps each pipeline outcome to an HTTP reply.

pub mod pixel;
pub mod decode;
pub mod encode;
pub mod gateway;
pub mod laws;
