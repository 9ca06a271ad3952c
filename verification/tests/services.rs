//! Service files, stream ids and URLs.
use atem_ip_patchbay::nesting::{deepest_nesting, MAX_NESTING};
use atem_ip_patchbay::state::EncoderState;
use atem_ip_patchbay::streamid::{
    build_bmd_streamid, build_srt_url, parse_srt_host_port, url_encode, SrtUrlParams,
};
use atem_ip_patchbay::xml::{load_service_text, LoadError};

const SAMPLE: &str = r#"<?xml version="1.0"?>
<streaming>
  <service>
    <name> My Service </name>
    <key>abcd-1234</key>
    <servers>
      <server group="Europe"><name>Plain</name><url>RTMP://eu.example.com/live</url></server>
      <server><name>Secure</name><url>srt://eu.example.com:1935</url></server>
    </servers>
    <profiles default="Medium">
      <profile>
        <name>High</name>
        <low-latency/>
        <config resolution="1080p" fps="60" codec="H265">
          <bitrate>9000000</bitrate>
          <audio-bitrate>128000</audio-bitrate>
          <keyframe-interval>2</keyframe-interval>
        </config>
        <config resolution="1080p" fps="30" codec="H265">
          <bitrate>lots</bitrate>
          <audio-bitrate>128000</audio-bitrate>
          <keyframe-interval>2</keyframe-interval>
        </config>
      </profile>
      <profile>
        <name>Medium</name>
        <config resolution="720p" codec="H264">
          <bitrate>4500000</bitrate>
          <audio-bitrate>96000</audio-bitrate>
          <keyframe-interval>1</keyframe-interval>
        </config>
      </profile>
    </profiles>
  </service>
</streaming>"#;

#[test]
fn a_service_file_is_read() {
    let s = load_service_text(SAMPLE).unwrap();
    assert_eq!(s.name, "My Service");
    assert_eq!(s.key, "abcd-1234");
    assert_eq!(s.servers.len(), 2);
    assert_eq!(s.servers[0].group, "Europe");
    assert_eq!(s.servers[0].protocol(), "rtmp");
    assert_eq!(s.servers[1].group, "Default");
    assert_eq!(s.srt_servers().len(), 1);
    assert_eq!(s.srt_servers()[0].name, "Secure");
    assert_eq!(s.default_profile, "Medium");
    assert_eq!(s.profiles.len(), 2);
    assert!(s.profiles[0].low_latency);
    assert!(!s.profiles[1].low_latency);
    // The second configuration has a number that cannot be read.
    assert_eq!(s.profiles[0].configs.len(), 1);
    let c = s.profiles[0].find_config("1080p", 60).unwrap();
    assert_eq!(c.bitrate, 9_000_000);
    assert_eq!(c.audio_bitrate, 128_000);
    assert_eq!(c.keyframe_interval, 2);
    assert_eq!(c.codec, "H265");
    assert!(s.profiles[0].find_config("1080p", 30).is_none());
    // Without a frame rate it is zero.
    assert_eq!(s.profiles[1].configs[0].fps, 0);
    assert_eq!(s.get_default_profile().unwrap().name, "Medium");
    assert!(s.find_profile("Low").is_none());
}

#[test]
fn the_root_may_be_the_service() {
    let s = load_service_text("<service><name>A</name></service>").unwrap();
    assert_eq!(s.name, "A");
    assert_eq!(s.key, "");
    assert!(s.servers.is_empty());
    assert!(s.get_default_profile().is_none());
}

#[test]
fn what_is_no_service_file_is_refused() {
    assert!(matches!(
        load_service_text("<root><other/></root>"),
        Err(LoadError::NoService)
    ));
    assert!(matches!(
        load_service_text("<root><inner><service/></inner></root>"),
        Err(LoadError::NoService)
    ));
    assert!(matches!(
        load_service_text("not a document"),
        Err(LoadError::Malformed(_))
    ));
}

#[test]
fn loading_picks_the_first_service() {
    let mut e = EncoderState::new();
    e.add_service_from_xml(SAMPLE, "first", None).unwrap();
    assert_eq!(e.current_service_name, "My Service");
    assert_eq!(e.current_server_name, "Secure");
    assert_eq!(e.stream_key, "abcd-1234");
    assert_eq!(e.quality_level, "Medium");
    // A second one of the same name is kept under another, and is not picked.
    e.add_service_from_xml(SAMPLE, "second", None).unwrap();
    assert_eq!(e.current_service_name, "My Service");
    assert_eq!(e.services.len(), 2);
    assert_eq!(e.services[1].name, "My Service [second]");
    e.clear_services();
    assert!(e.services.is_empty());
}

#[test]
fn pasted_services_get_names_of_their_own() {
    let mut e = EncoderState::new();
    e.add_service_from_xml_text(SAMPLE, true).unwrap();
    e.add_service_from_xml_text(SAMPLE, true).unwrap();
    e.add_service_from_xml_text(SAMPLE, false).unwrap();
    let names: Vec<&str> = e.services.iter().map(|s| s.name.as_str()).collect();
    assert_eq!(
        names,
        vec!["My Service", "My Service (pasted 2)", "My Service (pasted 3)"]
    );
    assert_eq!(e.current_service_name, "My Service (pasted 2)");
    assert!(e.add_service_from_xml_text("<x/>", true).is_err());
}

#[test]
fn a_picked_service_replaces_a_custom_url() {
    let mut e = EncoderState::new();
    e.custom_url = "srt://elsewhere:1".to_string();
    e.add_service_from_xml_text(SAMPLE, false).unwrap();
    assert_eq!(e.custom_url, "srt://elsewhere:1");
    e.add_service_from_xml(SAMPLE, "again", Some(true)).unwrap();
    assert_eq!(e.custom_url, "");
}

#[test]
fn stream_ids_take_two_forms() {
    assert_eq!(
        build_bmd_streamid("a/b", "My, Device=1", Some("U-1"), false),
        "#!::bmd_uuid=U-1,bmd_name=My  Device 1,u=a_b"
    );
    assert_eq!(
        build_bmd_streamid("key", "Dev", Some("U-1"), true),
        "#!::r=key,m=publish,bmd_uuid=U-1,bmd_name=Dev"
    );
}

#[test]
fn a_missing_identifier_is_made_up() {
    let a = build_bmd_streamid("k", "d", None, false);
    let b = build_bmd_streamid("k", "d", None, false);
    assert_ne!(a, b);
    let uuid = a
        .strip_prefix("#!::bmd_uuid=")
        .and_then(|s| s.strip_suffix(",bmd_name=d,u=k"))
        .unwrap();
    assert_eq!(uuid.len(), 36);
    assert_eq!(uuid.matches('-').count(), 4);
    assert_eq!(&uuid[14..15], "4");
    assert!("89ab".contains(&uuid[19..20]));
}

fn params<'a>() -> SrtUrlParams<'a> {
    SrtUrlParams {
        host: "1.2.3.4",
        port: 1935,
        stream_key: "key",
        device_name: "Dev",
        device_uuid: "U-1",
        latency_us: 500,
        passphrase: None,
        mode: "caller",
        streamid_override: "",
        listen_port: 9710,
        legacy_streamid: false,
    }
}

#[test]
fn srt_urls_carry_the_stream_id() {
    assert_eq!(
        build_srt_url(&params()),
        "srt://1.2.3.4:1935?latency=500&mode=caller&streamid=%23%21%3A%3Abmd_uuid%3DU-1%2Cbmd_name%3DDev%2Cu%3Dkey"
    );
    let mut p = params();
    p.streamid_override = "publish:cam 1";
    p.passphrase = Some("p&w");
    assert_eq!(
        build_srt_url(&p),
        "srt://1.2.3.4:1935?latency=500&mode=caller&passphrase=p%26w&streamid=publish%3Acam%201"
    );
    p.streamid_override = "  ";
    p.passphrase = Some("");
    assert_eq!(build_srt_url(&p), "srt://1.2.3.4:1935?latency=500&mode=caller");
}

#[test]
fn a_listener_waits_for_the_stream_id() {
    let mut p = params();
    p.mode = "listener";
    assert_eq!(build_srt_url(&p), "srt://0.0.0.0:9710?latency=500&mode=listener");
}

#[test]
fn hosts_and_ports_are_found() {
    assert_eq!(
        parse_srt_host_port("srt://host:1936/path?x=1", 1935),
        ("host".to_string(), 1936)
    );
    assert_eq!(parse_srt_host_port("srt://host?x", 1935), ("host".to_string(), 1935));
    assert_eq!(parse_srt_host_port("host:no", 7), ("host".to_string(), 7));
    assert_eq!(parse_srt_host_port("a:b:12", 7), ("a:b".to_string(), 12));
    assert_eq!(parse_srt_host_port("host:70000", 7), ("host".to_string(), 7));
}

#[test]
fn urls_are_percent_encoded() {
    assert_eq!(url_encode("aZ09-_.~"), "aZ09-_.~");
    assert_eq!(url_encode("é /"), "%C3%A9%20%2F");
    assert_eq!(url_encode("\u{1}"), "%01");
}

#[test]
fn listeners_tell_no_stream_id() {
    let mut p = params();
    p.mode = "listener";
    p.passphrase = Some("a=b&streamid=c");
    let url = build_srt_url(&p);
    assert_eq!(
        url,
        "srt://0.0.0.0:9710?latency=500&mode=listener&passphrase=a%3Db%26streamid%3Dc"
    );
    p.host = "other";
    p.port = 1;
    p.stream_key = "k";
    p.device_name = "n";
    p.device_uuid = "u";
    p.streamid_override = "o";
    p.legacy_streamid = true;
    assert_eq!(build_srt_url(&p), url);
}

#[test]
fn host_and_port_read_back() {
    let mut p = params();
    p.host = "[fe80::1]";
    p.port = 9000;
    assert_eq!(parse_srt_host_port(&build_srt_url(&p), 7), ("[fe80::1]".to_string(), 9000));
    assert_eq!(parse_srt_host_port("srt://atem.local/live", 7), ("atem.local".to_string(), 7));
}

/// So many elements, each in the one before it.
fn nested(count: usize) -> String {
    format!("{}{}", "<a>".repeat(count), "</a>".repeat(count))
}

#[test]
fn open_tags_are_counted() {
    assert_eq!(deepest_nesting(""), 0);
    assert_eq!(deepest_nesting("text"), 0);
    assert_eq!(deepest_nesting("<a/>"), 1);
    assert_eq!(deepest_nesting("<a><b/><c></c></a>"), 2);
    assert_eq!(deepest_nesting("<?xml version='1.0'?><a><!-- <b><c> --><b/></a>"), 2);
    assert_eq!(deepest_nesting("<a><![CDATA[<b><c>]]></a>"), 1);
    assert_eq!(deepest_nesting("<a><?b <c> ?></a>"), 1);
    // A mark in quotes ends no tag.
    assert_eq!(deepest_nesting("<a x='/>'><b y=\"'>/>\"><c/></b></a>"), 3);
    assert_eq!(deepest_nesting("<a x='>'/><b/>"), 1);
    assert_eq!(deepest_nesting("</a><b>"), 1);
    assert_eq!(deepest_nesting("<a"), 1);
    assert_eq!(deepest_nesting("<a><!x><b><c>"), 1);
    assert_eq!(deepest_nesting(&nested(1_000)), 1_000);
}

#[test]
fn deep_documents_are_refused() {
    let mut e = EncoderState::new();
    e.add_service_from_xml_text("<service><name>S</name></service>", true).unwrap();
    let before = format!("{e:?}");
    for depth in [MAX_NESTING + 1, 100_000] {
        let text = nested(depth);
        assert!(matches!(load_service_text(&text), Err(LoadError::TooDeep)));
        assert!(matches!(e.add_service_from_xml_text(&text, true), Err(LoadError::TooDeep)));
        assert!(matches!(e.add_service_from_xml(&text, "f", None), Err(LoadError::TooDeep)));
    }
    assert_eq!(format!("{e:?}"), before);
    // The deepest that is read.
    assert!(matches!(load_service_text(&nested(MAX_NESTING)), Err(LoadError::NoService)));
    let text = format!("<service><name>Deep</name>{}</service>", nested(MAX_NESTING - 1));
    assert_eq!(load_service_text(&text).unwrap().name, "Deep");
}
