# mppdarkgst

A GStreamer plugin for Rockchip MPP hardware video coding, with a verified core.

Frames are handled synchronously, within the calls of GStreamer, and picture data is copied between
GStreamer's buffers and the hardware's. There are no tasks of the plugin's own and no zero-copy output.

Elements:

- `mpph265enc`: H.265 encoder, H.264 where the hardware cannot do H.265 (NV12 in, byte stream out).
  Properties: `bps` (0 chooses the bitrate from size and frame rate), `gop` (-1 makes it one second).
- `mppvideodec`: H.264/H.265 decoder (byte stream in, NV12 out).
- `mppjpegdec`: JPEG decoder (NV12 out).

## Layout

- `src/` is the library, verified with Verus. It makes no call into MPP or GStreamer itself. Each
  sequence of such calls is a *script* (`script.rs`): a state machine that hands out the calls to
  make and goes on with the reply to the last of them. The contract of each step says exactly which
  calls follow from which reply.
  - `call.rs`: the calls and replies; `mpp_ffi.rs`: handles, command numbers, alignment.
  - `planes.rs`: copying NV12 pictures between packed and padded memory.
  - `allocator.rs`: buffer groups, imports, wrapping buffers as DMA-BUF memory.
  - `enc/`, `dec/`, `jpegdec/`: the elements.
  - `resources.rs` and the modules named `..laws`: what holds over whole runs, for any replies. Nothing
    that the outside hands out is lost, runs end, sizes are announced before pictures, frames go through
    the encoder in turn, and the stages of a handler follow each other in order.
- `app/` is the plugin around it: bindings, the loop that runs scripts, and the GObject classes. It
  needs `librockchip_mpp.so` and `libgstallocators-1.0.so`.
- `tests/` drives the scripts with made-up replies.
