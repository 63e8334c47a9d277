use router_bit_gcode::bits::{build_router_bit, create_router_bit, CreateRouterBitRequest, RouterBit};
use router_bit_gcode::defaults::{
    default_coordinates, default_router_bit, insert_default_coordinates, insert_default_router_bits,
};
use router_bit_gcode::error::CoreError;
use router_bit_gcode::fixed::format_fixed;
use router_bit_gcode::gcode::{
    generate, generate_common_header, GCodeGenerator, move_to_spoilboard_zero, move_to_workpiece_zero, output_filename,
    render, set_z_machine_coordinate, Operation,
};
use router_bit_gcode::resolver::{find_coordinates, resolve, resolve_height, GenerateRequest, ResolvedCoordinates};
use router_bit_gcode::store::{BitCoordinateStore, BitCoordinates};

const STRAIGHT: u128 = 0x550e8400e29b41d4a716446655440000;
const V_GROOVE: u128 = 0x6ba7b8109dad11d180b400c04fd430c8;
const DOWNCUT: u128 = 0x7f2c4a1b8d5e4c3f9f6a1d2b3e4f5a6b;
const UNKNOWN: u128 = 0x0123456789abcdef0123456789abcdef;

fn seeded_store() -> BitCoordinateStore {
    let mut store = BitCoordinateStore::new();
    insert_default_coordinates(&mut store);
    store
}

fn bit(id: u128) -> RouterBit {
    RouterBit {
        id,
        name: "bit".to_string(),
        bit_type: "Straight".to_string(),
        diameter: 2500,
        description: String::new(),
    }
}

fn request(id: u128, thickness: i64, zero: bool, height: bool) -> GenerateRequest {
    GenerateRequest {
        router_bit: bit(id),
        plywood_thickness: thickness,
        calculate_workpiece_zero: zero,
        calculate_workpiece_height: height,
    }
}

#[test]
fn workpiece_zero_scenario_straight_bit() {
    let store = seeded_store();
    let r = resolve(&store, STRAIGHT, 7500, true).unwrap();
    assert_eq!(r, ResolvedCoordinates { x: 38186, y: 35563, z: 48050 });
    let file = move_to_workpiece_zero(&store, &request(STRAIGHT, 7500, true, false)).unwrap();
    assert_eq!(file.filename, "SET_ZERO_LOCATION.TAP");
    assert!(file.text.contains("G53 G0 X3.8186 Y3.5563 ; Rapid move to new X and Y in machine coordinates\n"));
    assert!(file.text.contains("G53 G0 Z4.805 ; Rapid move to new Z in machine coordinates\n"));
}

#[test]
fn workpiece_zero_program_full_text() {
    let text = render(Operation::MoveToWorkpieceZero, &ResolvedCoordinates { x: 38186, y: 35563, z: 48050 });
    let expected = "( Move to specified X, Y, and Z coordinates in machine coordinates )\n\n\
                    G20 ; Set machine to inch mode\n\
                    G90 ; Set to absolute positioning\n\n\
                    ( Move to X3.8186, Y3.5563, Z4.805 in machine coordinates )\n\
                    G53 G0 X3.8186 Y3.5563 ; Rapid move to new X and Y in machine coordinates\n\
                    G53 G0 Z4.805 ; Rapid move to new Z in machine coordinates\n\n\
                    M30 ; End of program\n";
    assert_eq!(text, expected);
}

#[test]
fn spoilboard_scenario_ignores_bit_coordinates() {
    let store = seeded_store();
    let a = move_to_spoilboard_zero(&store, &request(STRAIGHT, 7500, true, false)).unwrap();
    let b = move_to_spoilboard_zero(&store, &request(V_GROOVE, 0, false, true)).unwrap();
    assert_eq!(a.filename, "MOVE_TO_SPOILBOARD_ZERO.TAP");
    assert!(a.text.contains("G53 G0 X0.7234 Y1.0276 ; Rapid move to machine coordinates\n"));
    assert_eq!(a.text, b.text);
    let expected = "( Move to spoilboard zero position )\n\n\
                    G20 ; Set machine to inch mode\n\
                    G90 ; Set to absolute positioning\n\n\
                    ( Move to machine coordinates )\n\
                    G53 G0 X0.7234 Y1.0276 ; Rapid move to machine coordinates\n\n\
                    M30 ; End of program\n";
    assert_eq!(a.text, expected);
}

#[test]
fn set_z_scenario_downcut_bit() {
    let store = seeded_store();
    let r = resolve_height(&store, DOWNCUT, 7500, true).unwrap();
    assert_eq!(r.z, -12791);
    let file = set_z_machine_coordinate(&store, &request(DOWNCUT, 7500, false, true)).unwrap();
    assert_eq!(file.filename, "SET_Z_MACHINE_COORDINATE.TAP");
    let expected = "( Move to workpiece position and then Z machine coordinate )\n\n\
                    G20 ; Set machine to inch mode\n\
                    G90 ; Set to absolute positioning\n\n\
                    ( Move to workpiece X=3, Y=3 )\n\
                    G0 X3 Y3 ; Rapid move to workpiece position\n\n\
                    ( Move to Z-1.2791 in machine coordinates )\n\
                    G53 G0 Z-1.2791 ; Rapid move to new Z in machine coordinates\n\n\
                    M30 ; End of program\n";
    assert_eq!(file.text, expected);
}

#[test]
fn set_z_height_does_not_compound_with_workpiece_zero() {
    let store = seeded_store();
    let plain = set_z_machine_coordinate(&store, &request(DOWNCUT, 7500, false, true)).unwrap();
    let both = set_z_machine_coordinate(&store, &request(DOWNCUT, 7500, true, true)).unwrap();
    assert_eq!(plain.text, both.text);
    let off = set_z_machine_coordinate(&store, &request(DOWNCUT, 7500, true, false)).unwrap();
    assert!(off.text.contains("G53 G0 Z-4.0291 ;"));
}

#[test]
fn unknown_bit_is_not_found_and_nothing_is_generated() {
    let store = seeded_store();
    assert_eq!(resolve(&store, UNKNOWN, 7500, true), Err(CoreError::BitNotFound));
    assert_eq!(resolve(&store, UNKNOWN, 0, false), Err(CoreError::BitNotFound));
    assert_eq!(resolve_height(&store, UNKNOWN, 7500, true), Err(CoreError::BitNotFound));
    for op in [Operation::MoveToWorkpieceZero, Operation::MoveToSpoilboardZero, Operation::SetZMachineCoordinate] {
        let r = generate(&store, op, &request(UNKNOWN, 7500, true, true));
        assert!(matches!(r, Err(CoreError::BitNotFound)));
    }
    assert!(find_coordinates(&BitCoordinateStore::new(), STRAIGHT).is_err());
}

#[test]
fn resolve_without_flags_returns_stored_coordinates() {
    let store = seeded_store();
    for k in 0..5 {
        let rec = default_coordinates(k);
        let id = default_router_bit(k).id;
        let r = resolve(&store, id, 7500, false).unwrap();
        assert_eq!((r.x, r.y, r.z), (rec.get_x(), rec.get_y(), rec.get_z()));
        let h = resolve_height(&store, id, 7500, false).unwrap();
        assert_eq!((h.x, h.y, h.z), (rec.get_x(), rec.get_y(), rec.get_z()));
    }
}

#[test]
fn resolve_workpiece_zero_subtracts_thickness() {
    let store = seeded_store();
    let r = resolve(&store, V_GROOVE, 12345, true).unwrap();
    assert_eq!(r, ResolvedCoordinates { x: 26744, y: 29678, z: -73963 - 12345 });
    let r0 = resolve(&store, V_GROOVE, 0, true).unwrap();
    assert_eq!(r0.z, -73963);
}

#[test]
fn negative_thickness_is_malformed() {
    let store = seeded_store();
    assert_eq!(resolve(&store, STRAIGHT, -1, true), Err(CoreError::RequestMalformed));
    assert_eq!(resolve_height(&store, STRAIGHT, -7500, false), Err(CoreError::RequestMalformed));
    assert_eq!(resolve(&store, STRAIGHT, 1_000_000_000_001, false), Err(CoreError::RequestMalformed));
    assert!(matches!(
        move_to_workpiece_zero(&store, &request(UNKNOWN, -1, false, false)),
        Err(CoreError::RequestMalformed)
    ));
}

#[test]
fn rendering_is_deterministic() {
    let c = ResolvedCoordinates { x: -12, y: 40000, z: 1 };
    for op in [Operation::MoveToWorkpieceZero, Operation::MoveToSpoilboardZero, Operation::SetZMachineCoordinate] {
        assert_eq!(render(op, &c), render(op, &c));
    }
    assert!(render(Operation::MoveToWorkpieceZero, &c).contains("( Move to X-0.0012, Y4, Z0.0001 in machine coordinates )\n"));
}

#[test]
fn update_then_resolve_round_trip() {
    let mut store = seeded_store();
    let key = default_coordinates(0).get_bit_id().to_string();
    let update = BitCoordinates::new(key, "ignored".to_string(), 11111, -22222, 33333);
    assert_eq!(store.modify_bit_coordinates(&update), Ok(()));
    let r = resolve(&store, STRAIGHT, 7500, false).unwrap();
    assert_eq!(r, ResolvedCoordinates { x: 11111, y: -22222, z: 33333 });
    assert_eq!(store.get(&default_coordinates(0).bit_id).unwrap().get_name(), "Straight Bit 1/4\"");
    assert_eq!(store.len(), 5);
}

#[test]
fn modify_rejects_unknown_bit_and_out_of_range_values() {
    let mut store = seeded_store();
    let unknown = BitCoordinates::new("not-a-bit".to_string(), String::new(), 1, 2, 3);
    assert_eq!(store.modify_bit_coordinates(&unknown), Err(CoreError::BitNotFound));
    let key = default_coordinates(1).bit_id;
    let huge = BitCoordinates::new(key, String::new(), 1_000_000_000_001, 0, 0);
    assert_eq!(store.modify_bit_coordinates(&huge), Err(CoreError::RequestMalformed));
    let r = resolve(&store, V_GROOVE, 0, false).unwrap();
    assert_eq!(r, ResolvedCoordinates { x: 26744, y: 29678, z: -73963 });
}

#[test]
fn insert_ignores_duplicates() {
    let mut store = seeded_store();
    assert_eq!(store.insert(default_coordinates(2)), Ok(false));
    assert_eq!(store.len(), 5);
    let fresh = BitCoordinates::new("fresh".to_string(), "Fresh".to_string(), 1, 2, 3);
    assert_eq!(store.insert(fresh), Ok(true));
    assert_eq!(store.len(), 6);
    assert_eq!(store.record_at(5).get_name(), "Fresh");
    let bad = BitCoordinates::new("bad".to_string(), String::new(), 0, -1_000_000_000_001, 0);
    assert_eq!(store.insert(bad), Err(CoreError::RequestMalformed));
    insert_default_coordinates(&mut store);
    assert_eq!(store.len(), 6);
}

#[test]
fn fixed_point_text() {
    assert_eq!(format_fixed(0), "0");
    assert_eq!(format_fixed(30000), "3");
    assert_eq!(format_fixed(48050), "4.805");
    assert_eq!(format_fixed(-40291), "-4.0291");
    assert_eq!(format_fixed(7234), "0.7234");
    assert_eq!(format_fixed(5), "0.0005");
    assert_eq!(format_fixed(-5000), "-0.5");
    assert_eq!(format_fixed(123456789), "12345.6789");
    assert_eq!(format_fixed(i64::MIN), "-922337203685477.5808");
    assert_eq!(format_fixed(i64::MAX), "922337203685477.5807");
}

#[test]
fn header_and_filenames() {
    assert_eq!(generate_common_header(), "G20 ; Set machine to inch mode\nG90 ; Set to absolute positioning\n\n");
    assert_eq!(output_filename(Operation::MoveToWorkpieceZero), "SET_ZERO_LOCATION.TAP");
    assert_eq!(output_filename(Operation::MoveToSpoilboardZero), "MOVE_TO_SPOILBOARD_ZERO.TAP");
    assert_eq!(output_filename(Operation::SetZMachineCoordinate), "SET_Z_MACHINE_COORDINATE.TAP");
}

#[test]
fn default_records_use_hyphenated_identifiers() {
    let expected = [
        "550e8400-e29b-41d4-a716-446655440000",
        "6ba7b810-9dad-11d1-80b4-00c04fd430c8",
        "550e8400-e29b-41d4-a716-446655440001",
        "7f2c4a1b-8d5e-4c3f-9f6a-1d2b3e4f5a6b",
        "9e8d7c6b-5a4f-3e2d-1c0b-9a8b7c6d5e4f",
    ];
    for (k, text) in expected.iter().enumerate() {
        assert_eq!(default_coordinates(k).get_bit_id(), *text);
        assert_eq!(format!("{}", uuid::Uuid::from_u128(default_router_bit(k).id)), *text);
    }
    let straight = default_coordinates(0);
    assert_eq!((straight.get_x(), straight.get_y(), straight.get_z()), (38186, 35563, 55550));
    assert_eq!(default_router_bit(1).name, "V-Groove 60°");
    assert_eq!(default_router_bit(2).diameter, 1250);
}

#[test]
fn default_bits_are_added_once() {
    let mut bits: Vec<RouterBit> = vec![bit(UNKNOWN), bit(STRAIGHT)];
    insert_default_router_bits(&mut bits);
    assert_eq!(bits.len(), 6);
    assert_eq!(bits[0].id, UNKNOWN);
    assert_eq!(bits[1].id, STRAIGHT);
    assert_eq!(bits[1].name, "bit");
    insert_default_router_bits(&mut bits);
    assert_eq!(bits.len(), 6);
    let mut empty: Vec<RouterBit> = Vec::new();
    insert_default_router_bits(&mut empty);
    assert_eq!(empty.len(), 5);
}

#[test]
fn created_bits_get_random_version_four_ids() {
    let req = || CreateRouterBitRequest {
        name: "Flush Trim".to_string(),
        bit_type: "Straight".to_string(),
        diameter: 5000,
        description: "Bearing guided".to_string(),
    };
    let a = create_router_bit(req()).unwrap();
    let b = create_router_bit(req()).unwrap();
    assert_ne!(a.id, b.id);
    assert_eq!((a.id >> 76) & 0xf, 4);
    assert_eq!((a.id >> 62) & 0x3, 2);
    assert_eq!(a.name, "Flush Trim");
    assert_eq!(a.diameter, 5000);
    let bad = CreateRouterBitRequest { diameter: 0, ..req() };
    assert!(matches!(create_router_bit(bad), Err(CoreError::RequestMalformed)));
}

#[test]
fn coordinate_setters_change_one_field() {
    let mut c = BitCoordinates::new("id".to_string(), "name".to_string(), 1, 2, 3);
    c.set_x(10);
    c.set_y(20);
    c.set_z(-30);
    c.set_name("other".to_string());
    c.set_bit_id("id2".to_string());
    assert_eq!((c.get_x(), c.get_y(), c.get_z()), (10, 20, -30));
    assert_eq!(c.get_name(), "other");
    assert_eq!(c.get_bit_id(), "id2");
}

#[test]
fn generator_binds_request_to_stored_record() {
    let store = seeded_store();
    let g = GCodeGenerator::new(&store, &request(STRAIGHT, 7500, false, false)).unwrap();
    assert_eq!(g.coordinates.get_bit_id(), "550e8400-e29b-41d4-a716-446655440000");
    assert_eq!(g.coordinates.get_name(), "Straight Bit 1/4\"");
    assert_eq!((g.coordinates.get_x(), g.coordinates.get_y(), g.coordinates.get_z()), (38186, 35563, 55550));
    let lowered = GCodeGenerator::new(&store, &request(STRAIGHT, 7500, true, true)).unwrap();
    assert_eq!(lowered.coordinates.get_z(), 48050);
    assert_eq!(lowered.stored_z, 55550);
    assert_eq!(lowered.workpiece_zero_target(), ResolvedCoordinates { x: 38186, y: 35563, z: 48050 });
    assert_eq!(lowered.z_machine_target(), ResolvedCoordinates { x: 38186, y: 35563, z: 55550 + 7500 + 20000 });
    assert_eq!(lowered.generate_common_header(), generate_common_header());
    assert!(matches!(GCodeGenerator::new(&store, &request(UNKNOWN, 0, false, false)), Err(CoreError::BitNotFound)));
    assert!(matches!(GCodeGenerator::new(&store, &request(STRAIGHT, -1, false, false)), Err(CoreError::RequestMalformed)));
}

#[test]
fn built_bit_keeps_given_identifier_and_fields() {
    let req = CreateRouterBitRequest {
        name: "Chamfer".to_string(),
        bit_type: "V-Groove".to_string(),
        diameter: 7500,
        description: "45 degrees".to_string(),
    };
    let b = build_router_bit(42, req).unwrap();
    assert_eq!(b.id, 42);
    assert_eq!((b.name.as_str(), b.bit_type.as_str(), b.diameter, b.description.as_str()), ("Chamfer", "V-Groove", 7500, "45 degrees"));
    let bad = CreateRouterBitRequest { name: String::new(), bit_type: String::new(), diameter: -1, description: String::new() };
    assert!(matches!(build_router_bit(42, bad), Err(CoreError::RequestMalformed)));
}

#[test]
fn added_default_bits_carry_all_fields() {
    let mut bits: Vec<RouterBit> = vec![bit(V_GROOVE)];
    insert_default_router_bits(&mut bits);
    let added: Vec<u128> = bits[1..].iter().map(|b| b.id).collect();
    assert_eq!(added, vec![STRAIGHT, 0x550e8400e29b41d4a716446655440001, DOWNCUT, 0x9e8d7c6b5a4f3e2d1c0b9a8b7c6d5e4f]);
    let straight = &bits[1];
    assert_eq!(straight.name, "Straight Bit 1/4\"");
    assert_eq!(straight.bit_type, "Straight");
    assert_eq!(straight.diameter, 2500);
    assert_eq!(straight.description, "General purpose straight cutting bit");
    let compression = &bits[4];
    assert_eq!(compression.name, "Compression 3/8\"");
    assert_eq!(compression.bit_type, "Compression");
    assert_eq!(compression.diameter, 3750);
    assert_eq!(compression.description, "Compression spiral for clean cuts on both top and bottom surfaces");
    assert_eq!(bits[0].name, "bit");
}
