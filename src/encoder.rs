//! The command line of the external encoder process that streams one source.
use crate::text::{push_decimal, push_signed_decimal, decimal, signed_decimal};
use vstd::prelude::*;

verus! {

/// The shell command of the encoder pipeline: it reads the pipewire node
/// `path`, encodes frames of `width` by `height` pixels and sends them to
/// `127.0.0.1:port`.
pub open spec fn pipeline_text(path: u32, width: i32, height: i32, port: u16) -> Seq<char> {
    let w = signed_decimal(width as int);
    let h = signed_decimal(height as int);
    "gst-launch-1.0 pipewiresrc path="@ + decimal(path as nat)
        + " ! video/x-raw,format=BGRx,width="@ + w + ",height="@ + h
        + " ! videoconvert ! video/x-raw,format=Y444,width="@ + w + ",height="@ + h
        + " ! x264enc speed-preset=superfast tune=zerolatency byte-stream=true sliced-threads=true threads=12 ! video/x-h264,stream-format=byte-stream,alignment=au,width="@
        + w + ",height="@ + h + " ! rtph264pay ! udpsink host=127.0.0.1 port="@ + decimal(
        port as nat,
    )
}

/// Builds the encoder pipeline command for one source.
pub fn encoder_pipeline(path: u32, width: i32, height: i32, port: u16) -> (r: String)
    ensures
        r@ == pipeline_text(path, width, height, port),
{
    let mut out = "gst-launch-1.0 pipewiresrc path=".to_owned();
    push_decimal(&mut out, path as u64);
    out.append(" ! video/x-raw,format=BGRx,width=");
    push_signed_decimal(&mut out, width as i64);
    out.append(",height=");
    push_signed_decimal(&mut out, height as i64);
    out.append(" ! videoconvert ! video/x-raw,format=Y444,width=");
    push_signed_decimal(&mut out, width as i64);
    out.append(",height=");
    push_signed_decimal(&mut out, height as i64);
    out.append(
        " ! x264enc speed-preset=superfast tune=zerolatency byte-stream=true sliced-threads=true threads=12 ! video/x-h264,stream-format=byte-stream,alignment=au,width=",
    );
    push_signed_decimal(&mut out, width as i64);
    out.append(",height=");
    push_signed_decimal(&mut out, height as i64);
    out.append(" ! rtph264pay ! udpsink host=127.0.0.1 port=");
    push_decimal(&mut out, port as u64);
    assert(out@ =~= pipeline_text(path, width, height, port));
    out
}

} // verus!
