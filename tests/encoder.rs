use loded::api::ApiManagerAnnouncer;
use loded::encoder::encoder_pipeline;

#[test]
fn pipeline_command_names_source_size_and_port() {
    let cmd = encoder_pipeline(42, 1920, 1080, 5004);
    assert_eq!(
        cmd,
        "gst-launch-1.0 pipewiresrc path=42 ! video/x-raw,format=BGRx,width=1920,height=1080 ! videoconvert ! video/x-raw,format=Y444,width=1920,height=1080 ! x264enc speed-preset=superfast tune=zerolatency byte-stream=true sliced-threads=true threads=12 ! video/x-h264,stream-format=byte-stream,alignment=au,width=1920,height=1080 ! rtph264pay ! udpsink host=127.0.0.1 port=5004"
    );
}

#[test]
fn pipeline_command_edge_numbers() {
    let cmd = encoder_pipeline(0, -7, i32::MIN, 65535);
    assert!(cmd.starts_with("gst-launch-1.0 pipewiresrc path=0 ! "));
    assert!(cmd.contains("width=-7,height=-2147483648"));
    assert!(cmd.ends_with("port=65535"));
}

#[test]
fn announcer_reports_its_port() {
    assert_eq!(ApiManagerAnnouncer::new(4242).get_address(), 4242);
}
