use vexide_devices::color::Color;
use vexide_devices::geometry::Point2;
use vexide_devices::smart::ai_vision::{
    AiVisionColorCode, AiVisionCodeRecord, AiVisionDetectionMode, AiVisionError, AiVisionFlags,
    AiVisionObject, AiVisionObjectRecord, AiVisionSensor, AprilTagFamily, COLOR_MERGE,
    DISABLE_USB_OVERLAY, MODE_COLOR, MODE_COLOR_MERGE, RESET_FLAG,
};
use vexide_devices::smart::vision::{
    DetectionSource, LedMode, VisionCode, VisionMode, VisionObjectError, VisionObjectRecord,
    VisionRgb, VisionSensor, VisionSignature, VisionSignatureError, VisionSignatureRecord,
    WhiteBalance, BLOCK_COLOR_CODE, BLOCK_NORMAL,
};
use vexide_devices::smart::{PortError, SmartPort};

const VISION: u8 = 11;
const AI_VISION: u8 = 29;

#[test]
fn vision_code_id_round_trip() {
    let c = VisionCode::new(1, 2, Some(3), None, Some(5));
    assert_eq!(c.id(), (1 << 12) | (2 << 9) | (3 << 6) | 5);
    assert_eq!(VisionCode::from_id(c.id()), c);
    assert_eq!(VisionCode::from_id(10), VisionCode(0, 0, None, Some(1), Some(2)));
    assert!(c.contains_signature(5));
    assert!(!c.contains_signature(4));
}

fn raw_sig(id: u8, pad0: u8) -> VisionSignatureRecord<f32> {
    VisionSignatureRecord {
        id,
        flags: 0,
        pad: [pad0, 0],
        range: 2.5,
        u_min: -1,
        u_max: 1,
        u_mean: 0,
        v_min: -2,
        v_max: 2,
        v_mean: 0,
        rgb: 0,
        signature_type: BLOCK_NORMAL,
    }
}

#[test]
fn set_signature_types_code_members() {
    let mut v = VisionSensor::new(SmartPort::new(1));
    let sig = VisionSignature::new((1, 2, 3), (4, 5, 6), 3.0f32);
    let rec = v.set_signature(1, sig, VISION).unwrap();
    assert_eq!(rec.signature_type, BLOCK_NORMAL);
    assert_eq!((rec.u_min, rec.u_max, rec.u_mean), (1, 2, 3));
    let (writes, result) = v.add_code(VisionCode::new(1, 2, None, None, None), VISION, &[(true, raw_sig(1, 1)), (true, raw_sig(2, 1))]);
    assert_eq!(result, Ok(()));
    assert_eq!(writes.len(), 2);
    assert_eq!(writes[1].signature_type, BLOCK_COLOR_CODE);
    let rec = v.set_signature(1, sig, VISION).unwrap();
    assert_eq!(rec.signature_type, BLOCK_COLOR_CODE);
    assert_eq!(
        v.set_signature(1, sig, 0),
        Err(PortError::Disconnected { port: 1 })
    );
}

#[test]
fn add_code_stops_at_first_unreadable_signature() {
    let mut v = VisionSensor::new(SmartPort::new(1));
    let code = VisionCode::new(1, 2, Some(3), None, None);
    let (writes, result) = v.add_code(code, VISION, &[(true, raw_sig(1, 1)), (true, raw_sig(2, 0)), (true, raw_sig(3, 1))]);
    assert_eq!(result, Err(VisionSignatureError::ReadingFailed));
    assert_eq!(writes.len(), 1);
    // the code was not registered, so its objects are not reported
    let obj = VisionObjectRecord { signature: code.id(), block_type: 1, xoffset: 0, yoffset: 0, width: 2, height: 2, angle: 0 };
    assert_eq!(v.objects(VISION, false, 0, &[(1, obj)]).unwrap().len(), 0);
}

#[test]
fn signatures_read_back() {
    let v = VisionSensor::new(SmartPort::new(1));
    let s = v.signature(2, VISION, true, raw_sig(2, 1)).unwrap().unwrap();
    assert_eq!(s.u_threshold, (-1, 1, 0));
    assert_eq!(s.range, 2.5);
    assert_eq!(v.signature(2, VISION, false, raw_sig(2, 1)), Ok(None));
    assert_eq!(v.signature(2, VISION, true, raw_sig(2, 0)), Err(VisionSignatureError::ReadingFailed));
    let all = v
        .signatures(VISION, [true, false, true, false, false, false, false], [raw_sig(1, 1); 7])
        .unwrap();
    assert!(all[0].is_some() && all[1].is_none() && all[2].is_some());
}

#[test]
fn objects_are_decoded_and_filtered() {
    let mut v = VisionSensor::new(SmartPort::new(1));
    let code = VisionCode::new(1, 2, None, None, None);
    let (_, r) = v.add_code(code, VISION, &[(true, raw_sig(1, 1)), (true, raw_sig(2, 1))]);
    assert_eq!(r, Ok(()));
    let sig_obj = VisionObjectRecord { signature: 3, block_type: 0, xoffset: 10, yoffset: 20, width: 4, height: 6, angle: 0 };
    let code_obj = VisionObjectRecord { signature: code.id(), block_type: 1, xoffset: 0, yoffset: 0, width: 8, height: 8, angle: 450 };
    let other_code = VisionObjectRecord { signature: VisionCode::new(3, 4, None, None, None).id(), block_type: 1, ..code_obj };
    let objs = v.objects(VISION, false, 0, &[(1, sig_obj), (1, code_obj), (1, other_code)]).unwrap();
    assert_eq!(objs.len(), 2);
    assert_eq!(objs[0].source, DetectionSource::Signature(3));
    assert_eq!(objs[0].center, Point2 { x: 12, y: 23 });
    assert_eq!(objs[1].source, DetectionSource::Code(code));
    assert_eq!(objs[1].angle, 450);
    assert_eq!(v.object_count(VISION, false, 0, &[(1, sig_obj)]), Ok(1));
    assert_eq!(v.objects(VISION, true, 0, &[]), Err(VisionObjectError::WifiMode));
    assert_eq!(v.objects(VISION, false, 0, &[(0, sig_obj)]), Err(VisionObjectError::InvalidObject));
}

#[test]
fn vision_modes() {
    let mut v = VisionSensor::new(SmartPort::new(1));
    assert_eq!(v.mode(VISION, false, 2), Ok(VisionMode::LineDetection));
    assert_eq!(v.mode(VISION, true, 2), Ok(VisionMode::Wifi));
    assert_eq!(v.set_mode(VisionMode::Wifi, VISION), Ok((true, None)));
    assert_eq!(v.set_mode(VisionMode::MixedDetection, VISION), Ok((false, Some(1))));
    let red = Color::new(255, 0, 0);
    assert_eq!(
        v.set_white_balance(WhiteBalance::Manual(red), VISION),
        Ok((2, Some(VisionRgb { red: 255, green: 0, blue: 0, brightness: 255 })))
    );
    assert_eq!(
        v.set_led_mode(LedMode::Manual(red, 40), VISION),
        Ok((1, Some(VisionRgb { red: 255, green: 0, blue: 0, brightness: 40 })))
    );
    assert_eq!(
        v.led_mode(VISION, 1, VisionRgb { red: 1, green: 2, blue: 3, brightness: 4 }),
        Ok(LedMode::Manual(Color::new(1, 2, 3), 4))
    );
    assert_eq!(v.white_balance(VISION, 1, VisionRgb::default()), Ok(WhiteBalance::StartupAuto));
}

#[test]
fn ai_vision_color_code_round_trip() {
    let (mut s, reset) = AiVisionSensor::new(SmartPort::new(2));
    assert_eq!(reset, RESET_FLAG);
    let code = AiVisionColorCode::new([Some(1), None, Some(3), None, None, None, Some(7)]);
    assert_eq!(code.colors(), vec![1, 3, 7]);
    let rec = s.set_color_code(4, &code, AI_VISION).unwrap();
    assert_eq!((rec.id, rec.len), (4, 3));
    assert_eq!(rec.colors, [1, 3, 7, 0, 0, 0, 0]);
    let back = s.color_code(4, AI_VISION, true, rec).unwrap().unwrap();
    assert_eq!(back.colors(), vec![1, 3, 7]);
    assert_eq!(s.color_code(4, AI_VISION, false, rec).unwrap().is_none(), true);
    let empty = AiVisionCodeRecord { id: 1, len: 0, colors: [0; 7] };
    let all = s.color_codes(AI_VISION, [true; 8], [empty; 8]).unwrap();
    assert_eq!(all[7].unwrap().colors(), Vec::<u8>::new());
    assert_eq!(
        s.set_color_code(4, &code, 0).err(),
        Some(AiVisionError::Port { source: PortError::Disconnected { port: 2 } })
    );
}

#[test]
fn ai_vision_mode_words() {
    let mode = AiVisionDetectionMode::from_bits_retain(MODE_COLOR | MODE_COLOR_MERGE);
    assert_eq!(AiVisionFlags::from_mode(mode).bits(), 0x15);
    let mode = AiVisionDetectionMode::from_bits_retain(MODE_COLOR);
    assert_eq!(AiVisionFlags::from_mode(mode).bits(), 0x05);
    let (mut s, _) = AiVisionSensor::new(SmartPort::new(2));
    assert_eq!(s.flags(AI_VISION, 0x1234_5681).unwrap().bits(), 0x81);
    assert_eq!(
        s.set_flags(AiVisionFlags::from_bits_retain(DISABLE_USB_OVERLAY), AI_VISION, 0x12),
        Ok(0x0200_8000)
    );
    assert_eq!(
        s.set_detection_mode(AiVisionDetectionMode::from_bits_retain(MODE_COLOR), AI_VISION, 0x80),
        Ok(0x0200_0000 | (0x85 << 8))
    );
    assert_eq!(
        s.set_apriltag_family(AprilTagFamily::Tag36h11, AI_VISION, 0),
        Ok((3 << 16) | 0x2000_0000)
    );
    assert_eq!(AiVisionFlags::default().bits(), DISABLE_USB_OVERLAY);
    assert_eq!(COLOR_MERGE, 0x10);
}

#[test]
fn ai_vision_objects_decoded() {
    let (s, _) = AiVisionSensor::new(SmartPort::new(2));
    let color = AiVisionObjectRecord { id: 1, kind: 1, data: [1, 2, 3, 4, 0, 0, 0, 0] };
    let tag = AiVisionObjectRecord { id: 9, kind: 8, data: [0xFFFF, 2, 3, 4, 5, 6, 7, 8] };
    let model = AiVisionObjectRecord { id: 3, kind: 4, data: [5, 6, 7, 8, 90, 0, 0, 0] };
    assert!(model.needs_class_name());
    assert!(!color.needs_class_name());
    let objs = s
        .objects(AI_VISION, &[color, tag, model], &[None, None, Some(String::from("cube"))])
        .unwrap();
    assert_eq!(
        objs[0],
        AiVisionObject::Color { id: 1, position: Point2 { x: 1, y: 2 }, width: 3, height: 4 }
    );
    match &objs[1] {
        AiVisionObject::AprilTag { id, top_left, bottom_left, .. } => {
            assert_eq!(*id, 9);
            assert_eq!(*top_left, Point2 { x: -1, y: 2 });
            assert_eq!(*bottom_left, Point2 { x: 7, y: 8 });
        }
        other => panic!("unexpected {other:?}"),
    }
    match &objs[2] {
        AiVisionObject::Model { classification, confidence, .. } => {
            assert_eq!(classification, "cube");
            assert_eq!(*confidence, 90);
        }
        other => panic!("unexpected {other:?}"),
    }
    assert_eq!(s.objects(AI_VISION, &[model], &[None]), Err(AiVisionError::InvalidClassName));
    let bad = AiVisionObjectRecord { id: 1, kind: 3, data: [0; 8] };
    assert_eq!(s.objects(AI_VISION, &[color, bad], &[None, None]), Err(AiVisionError::InvalidObject));
    assert_eq!(s.object_count(AI_VISION, 5), Ok(5));
}

#[test]
fn stored_signature_reads_back() {
    let mut v = VisionSensor::new(SmartPort::new(1));
    let sig = VisionSignature::new((-7, 9, 1), (20, 40, 30), 1.5f32);
    let mut rec = v.set_signature(4, sig, VISION).unwrap();
    // The sensor marks a record it sends with a nonzero first padding byte.
    rec.pad[0] = 1;
    let back = v.signature(4, VISION, true, rec).unwrap().unwrap();
    assert_eq!(back.u_threshold, (-7, 9, 1));
    assert_eq!(back.v_threshold, (20, 40, 30));
    assert_eq!(back.range, 1.5);
    assert_eq!(back.flags, 0);
}

#[test]
fn ai_color_codes_from_tuples_and_arrays() {
    assert_eq!(AiVisionColorCode::from((2u8,)).colors(), vec![2]);
    assert_eq!(AiVisionColorCode::from((1u8, 2u8, 3u8)).colors(), vec![1, 2, 3]);
    assert_eq!(
        AiVisionColorCode::from((1u8, 2u8, 3u8, 4u8, 5u8, 6u8, 7u8)).colors(),
        vec![1, 2, 3, 4, 5, 6, 7]
    );
    assert_eq!(
        AiVisionColorCode::from([Some(4u8), None, Some(6u8)]),
        AiVisionColorCode::new([Some(4), None, Some(6), None, None, None, None])
    );
    assert_eq!(
        AiVisionColorCode::from([5u8, 6u8]),
        AiVisionColorCode::new([Some(5), Some(6), None, None, None, None, None])
    );
}
