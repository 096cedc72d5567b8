use exercises::packet::Packet;
use exercises::packet::packet_router;
use exercises::packet::process_packet;

#[test]
fn test_owbor_ex1() {
    let p = Packet { content: String::from("DATA") };
    let processed = process_packet(&p);
    assert_eq!(processed, "Processing: DATA".to_string());

    let routed = packet_router();
    println!("{}", routed);
}
