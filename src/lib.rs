// Stroke meshes for a real-time vector renderer, and the decisions of its
// frame loop: building polylines, assembling and padding the tessellator's
// output, collecting a frame's meshes, planning their upload into GPU buffers,
// and reacting to window events and render failures.
pub mod canvas;
pub mod frame;
pub mod mesh;
pub mod upload;
