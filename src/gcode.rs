//! G-code programs for the fixed operations, rendered from resolved coordinates.
use vstd::prelude::*;
use vstd::string::StringExecFns;
use crate::error::CoreError;
use crate::fixed::{fixed_text, push_fixed};
use crate::resolver::{resolved, resolved_height, as_triple, GenerateRequest, ResolvedCoordinates};
use crate::ident::uuid_text;
use crate::resolver::{find_coordinates, thickness_valid, workpiece_height_z, workpiece_zero_z};
use crate::store::{lookup, BitCoordinateStore, BitCoordinates, CoordinateView, MAX_LENGTH};

verus! {

/// Machine-frame X of the spoilboard reference point: 0.7234 in.
pub const SPOILBOARD_X: i64 = 7234;

/// Machine-frame Y of the spoilboard reference point: 1.0276 in.
pub const SPOILBOARD_Y: i64 = 10276;

/// Workpiece-frame X of the point visited before setting Z: 3 in.
pub const WORKPIECE_REFERENCE_X: i64 = 30000;

/// Workpiece-frame Y of the point visited before setting Z: 3 in.
pub const WORKPIECE_REFERENCE_Y: i64 = 30000;

/// The operations for which a program can be generated.
#[derive(Debug, Clone, Copy, PartialEq, Eq, Structural)]
pub enum Operation {
    MoveToWorkpieceZero,
    MoveToSpoilboardZero,
    SetZMachineCoordinate,
}

/// A generated program with the name of the file it is written to.
pub struct GcodeFile {
    pub filename: String,
    pub text: String,
}

/// Inch units and absolute positioning, then a blank line.
pub open spec fn header_text() -> Seq<char> {
    "G20 ; Set machine to inch mode\nG90 ; Set to absolute positioning\n\n"@
}

pub open spec fn end_text() -> Seq<char> {
    "M30 ; End of program\n"@
}

pub open spec fn workpiece_zero_program(c: ResolvedCoordinates) -> Seq<char> {
    let x = fixed_text(c.x as int);
    let y = fixed_text(c.y as int);
    let z = fixed_text(c.z as int);
    "( Move to specified X, Y, and Z coordinates in machine coordinates )\n\n"@ + header_text()
        + "( Move to X"@ + x + ", Y"@ + y + ", Z"@ + z + " in machine coordinates )\n"@
        + "G53 G0 X"@ + x + " Y"@ + y + " ; Rapid move to new X and Y in machine coordinates\n"@
        + "G53 G0 Z"@ + z + " ; Rapid move to new Z in machine coordinates\n\n"@
        + end_text()
}

pub open spec fn spoilboard_zero_program() -> Seq<char> {
    "( Move to spoilboard zero position )\n\n"@ + header_text()
        + "( Move to machine coordinates )\n"@
        + "G53 G0 X"@ + fixed_text(SPOILBOARD_X as int) + " Y"@ + fixed_text(SPOILBOARD_Y as int)
        + " ; Rapid move to machine coordinates\n\n"@
        + end_text()
}

pub open spec fn z_machine_program(c: ResolvedCoordinates) -> Seq<char> {
    let wx = fixed_text(WORKPIECE_REFERENCE_X as int);
    let wy = fixed_text(WORKPIECE_REFERENCE_Y as int);
    let z = fixed_text(c.z as int);
    "( Move to workpiece position and then Z machine coordinate )\n\n"@ + header_text()
        + "( Move to workpiece X="@ + wx + ", Y="@ + wy + " )\n"@
        + "G0 X"@ + wx + " Y"@ + wy + " ; Rapid move to workpiece position\n\n"@
        + "( Move to Z"@ + z + " in machine coordinates )\n"@
        + "G53 G0 Z"@ + z + " ; Rapid move to new Z in machine coordinates\n\n"@
        + end_text()
}

/// The text of the program for `op` at coordinates `c`.
pub open spec fn program_text(op: Operation, c: ResolvedCoordinates) -> Seq<char> {
    match op {
        Operation::MoveToWorkpieceZero => workpiece_zero_program(c),
        Operation::MoveToSpoilboardZero => spoilboard_zero_program(),
        Operation::SetZMachineCoordinate => z_machine_program(c),
    }
}

/// The name of the file that the program for `op` is written to.
pub open spec fn filename_text(op: Operation) -> Seq<char> {
    match op {
        Operation::MoveToWorkpieceZero => "SET_ZERO_LOCATION.TAP"@,
        Operation::MoveToSpoilboardZero => "MOVE_TO_SPOILBOARD_ZERO.TAP"@,
        Operation::SetZMachineCoordinate => "SET_Z_MACHINE_COORDINATE.TAP"@,
    }
}

/// The coordinates that the program for `op` is rendered from: the
/// workpiece-zero adjustment for the moves, the height adjustment for set-Z.
pub open spec fn target_of(
    s: Seq<crate::store::CoordinateView>,
    op: Operation,
    request: GenerateRequest,
) -> Result<(int, int, int), CoreError> {
    match op {
        Operation::SetZMachineCoordinate => resolved_height(
            s,
            request.router_bit.id,
            request.plywood_thickness as int,
            request.calculate_workpiece_height,
        ),
        _ => resolved(s, request.router_bit.id, request.plywood_thickness as int, request.calculate_workpiece_zero),
    }
}

/// A request bound to the stored record of its bit: what every program is
/// rendered from. `coordinates` holds the workpiece-zero adjusted record;
/// `stored_z` keeps the Z as stored, the base of the set-Z height.
pub struct GCodeGenerator {
    pub coordinates: BitCoordinates,
    pub stored_z: i64,
    pub plywood_thickness: i64,
    pub calculate_workpiece_zero: bool,
    pub calculate_workpiece_height: bool,
}

impl GCodeGenerator {
    /// The stored Z and the thickness are within `MAX_LENGTH`.
    pub open spec fn wf(&self) -> bool {
        -MAX_LENGTH <= self.stored_z <= MAX_LENGTH && thickness_valid(self.plywood_thickness as int)
    }

    /// Binds `request` to the stored record of its bit, lowering Z by the
    /// thickness when the workpiece-zero flag is set.
    pub fn new(store: &BitCoordinateStore, request: &GenerateRequest) -> (r: Result<Self, CoreError>)
        requires
            store.wf(),
        ensures
            r is Ok <==> thickness_valid(request.plywood_thickness as int)
                && lookup(store@, uuid_text(request.router_bit.id)) is Some,
            !thickness_valid(request.plywood_thickness as int) ==> r == Err::<Self, CoreError>(CoreError::RequestMalformed),
            thickness_valid(request.plywood_thickness as int) && lookup(store@, uuid_text(request.router_bit.id)) is None
                ==> r == Err::<Self, CoreError>(CoreError::BitNotFound),
            r matches Ok(g) ==> ({
                let c = lookup(store@, uuid_text(request.router_bit.id))->Some_0;
                &&& g.wf()
                &&& g.coordinates@ == (CoordinateView {
                    z: workpiece_zero_z(c.z, request.plywood_thickness as int, request.calculate_workpiece_zero),
                    ..c
                })
                &&& g.stored_z == c.z
                &&& g.plywood_thickness == request.plywood_thickness
                &&& g.calculate_workpiece_zero == request.calculate_workpiece_zero
                &&& g.calculate_workpiece_height == request.calculate_workpiece_height
            }),
    {
        if !(0 <= request.plywood_thickness && request.plywood_thickness <= MAX_LENGTH) {
            return Err(CoreError::RequestMalformed);
        }
        let stored = find_coordinates(store, request.router_bit.id)?;
        proof {
            crate::store::lemma_lookup_in_range(store@, uuid_text(request.router_bit.id));
        }
        let mut coordinates = stored.clone_record();
        if request.calculate_workpiece_zero {
            coordinates.set_z(coordinates.get_z() - request.plywood_thickness);
        }
        Ok(GCodeGenerator {
            coordinates,
            stored_z: stored.z,
            plywood_thickness: request.plywood_thickness,
            calculate_workpiece_zero: request.calculate_workpiece_zero,
            calculate_workpiece_height: request.calculate_workpiece_height,
        })
    }

    /// The program header.
    pub fn generate_common_header(&self) -> (r: String)
        ensures
            r@ == header_text(),
    {
        generate_common_header()
    }

    /// Where the workpiece-zero move goes: the adjusted record's coordinates.
    pub fn workpiece_zero_target(&self) -> (r: ResolvedCoordinates)
        ensures
            r.x == self.coordinates.x && r.y == self.coordinates.y && r.z == self.coordinates.z,
    {
        ResolvedCoordinates { x: self.coordinates.x, y: self.coordinates.y, z: self.coordinates.z }
    }

    /// Where the set-Z move goes: the stored Z, raised by the thickness and
    /// the clearance when the height flag is set.
    pub fn z_machine_target(&self) -> (r: ResolvedCoordinates)
        requires
            self.wf(),
        ensures
            r.x == self.coordinates.x && r.y == self.coordinates.y,
            r.z == workpiece_height_z(self.stored_z as int, self.plywood_thickness as int, self.calculate_workpiece_height),
    {
        let z = if self.calculate_workpiece_height {
            self.stored_z + self.plywood_thickness + crate::resolver::CLEARANCE
        } else {
            self.stored_z
        };
        ResolvedCoordinates { x: self.coordinates.x, y: self.coordinates.y, z }
    }
}

/// The common program header.
pub fn generate_common_header() -> (r: String)
    ensures
        r@ == header_text(),
{
    String::from_str("G20 ; Set machine to inch mode\nG90 ; Set to absolute positioning\n\n")
}

/// Renders the program for `op` at coordinates `c`.
pub fn render(op: Operation, c: &ResolvedCoordinates) -> (r: String)
    ensures
        r@ == program_text(op, *c),
{
    let mut out = String::new();
    match op {
        Operation::MoveToWorkpieceZero => {
            out.append("( Move to specified X, Y, and Z coordinates in machine coordinates )\n\n");
            out.append(generate_common_header().as_str());
            out.append("( Move to X");
            push_fixed(&mut out, c.x);
            out.append(", Y");
            push_fixed(&mut out, c.y);
            out.append(", Z");
            push_fixed(&mut out, c.z);
            out.append(" in machine coordinates )\n");
            out.append("G53 G0 X");
            push_fixed(&mut out, c.x);
            out.append(" Y");
            push_fixed(&mut out, c.y);
            out.append(" ; Rapid move to new X and Y in machine coordinates\n");
            out.append("G53 G0 Z");
            push_fixed(&mut out, c.z);
            out.append(" ; Rapid move to new Z in machine coordinates\n\n");
            out.append("M30 ; End of program\n");
            assert(out@ =~= program_text(op, *c));
        },
        Operation::MoveToSpoilboardZero => {
            out.append("( Move to spoilboard zero position )\n\n");
            out.append(generate_common_header().as_str());
            out.append("( Move to machine coordinates )\n");
            out.append("G53 G0 X");
            push_fixed(&mut out, SPOILBOARD_X);
            out.append(" Y");
            push_fixed(&mut out, SPOILBOARD_Y);
            out.append(" ; Rapid move to machine coordinates\n\n");
            out.append("M30 ; End of program\n");
            assert(out@ =~= program_text(op, *c));
        },
        Operation::SetZMachineCoordinate => {
            out.append("( Move to workpiece position and then Z machine coordinate )\n\n");
            out.append(generate_common_header().as_str());
            out.append("( Move to workpiece X=");
            push_fixed(&mut out, WORKPIECE_REFERENCE_X);
            out.append(", Y=");
            push_fixed(&mut out, WORKPIECE_REFERENCE_Y);
            out.append(" )\n");
            out.append("G0 X");
            push_fixed(&mut out, WORKPIECE_REFERENCE_X);
            out.append(" Y");
            push_fixed(&mut out, WORKPIECE_REFERENCE_Y);
            out.append(" ; Rapid move to workpiece position\n\n");
            out.append("( Move to Z");
            push_fixed(&mut out, c.z);
            out.append(" in machine coordinates )\n");
            out.append("G53 G0 Z");
            push_fixed(&mut out, c.z);
            out.append(" ; Rapid move to new Z in machine coordinates\n\n");
            out.append("M30 ; End of program\n");
            assert(out@ =~= program_text(op, *c));
        },
    }
    out
}

/// The name of the file that the program for `op` is written to.
pub fn output_filename(op: Operation) -> (r: String)
    ensures
        r@ == filename_text(op),
{
    match op {
        Operation::MoveToWorkpieceZero => String::from_str("SET_ZERO_LOCATION.TAP"),
        Operation::MoveToSpoilboardZero => String::from_str("MOVE_TO_SPOILBOARD_ZERO.TAP"),
        Operation::SetZMachineCoordinate => String::from_str("SET_Z_MACHINE_COORDINATE.TAP"),
    }
}

/// Generates the program for `op`: binds the request to its bit, then renders.
/// Nothing is rendered when resolution fails.
pub fn generate(store: &BitCoordinateStore, op: Operation, request: &GenerateRequest) -> (r: Result<GcodeFile, CoreError>)
    requires
        store.wf(),
    ensures
        r is Ok <==> target_of(store@, op, *request) is Ok,
        r is Err ==> target_of(store@, op, *request) == Err::<(int, int, int), CoreError>(r->Err_0),
        r is Ok ==> exists|c: ResolvedCoordinates|
            target_of(store@, op, *request) == Ok::<(int, int, int), CoreError>(#[trigger] as_triple(c))
                && r->Ok_0.text@ == program_text(op, c)
                && r->Ok_0.filename@ == filename_text(op),
{
    let generator = GCodeGenerator::new(store, request)?;
    let c = match op {
        Operation::SetZMachineCoordinate => generator.z_machine_target(),
        _ => generator.workpiece_zero_target(),
    };
    let text = render(op, &c);
    let filename = output_filename(op);
    assert(target_of(store@, op, *request) == Ok::<(int, int, int), CoreError>(as_triple(c)));
    Ok(GcodeFile { filename, text })
}

} // verus!

verus! {

/// The program that moves to the bit's workpiece zero, written to
/// `SET_ZERO_LOCATION.TAP`.
pub fn move_to_workpiece_zero(store: &BitCoordinateStore, request: &GenerateRequest) -> (r: Result<GcodeFile, CoreError>)
    requires
        store.wf(),
    ensures
        r is Ok <==> target_of(store@, Operation::MoveToWorkpieceZero, *request) is Ok,
        r is Err ==> target_of(store@, Operation::MoveToWorkpieceZero, *request) == Err::<(int, int, int), CoreError>(r->Err_0),
        r is Ok ==> exists|c: ResolvedCoordinates|
            target_of(store@, Operation::MoveToWorkpieceZero, *request) == Ok::<(int, int, int), CoreError>(#[trigger] as_triple(c))
                && r->Ok_0.text@ == workpiece_zero_program(c)
                && r->Ok_0.filename@ == filename_text(Operation::MoveToWorkpieceZero),
{
    generate(store, Operation::MoveToWorkpieceZero, request)
}

/// The program that moves to the fixed spoilboard reference point, written to
/// `MOVE_TO_SPOILBOARD_ZERO.TAP`. The requested bit must still be known.
pub fn move_to_spoilboard_zero(store: &BitCoordinateStore, request: &GenerateRequest) -> (r: Result<GcodeFile, CoreError>)
    requires
        store.wf(),
    ensures
        r is Ok <==> target_of(store@, Operation::MoveToSpoilboardZero, *request) is Ok,
        r is Err ==> target_of(store@, Operation::MoveToSpoilboardZero, *request) == Err::<(int, int, int), CoreError>(r->Err_0),
        r is Ok ==> r->Ok_0.text@ == spoilboard_zero_program()
            && r->Ok_0.filename@ == filename_text(Operation::MoveToSpoilboardZero),
{
    generate(store, Operation::MoveToSpoilboardZero, request)
}

/// The program that visits the workpiece reference point and then moves to the
/// height-adjusted Z, written to `SET_Z_MACHINE_COORDINATE.TAP`.
pub fn set_z_machine_coordinate(store: &BitCoordinateStore, request: &GenerateRequest) -> (r: Result<GcodeFile, CoreError>)
    requires
        store.wf(),
    ensures
        r is Ok <==> target_of(store@, Operation::SetZMachineCoordinate, *request) is Ok,
        r is Err ==> target_of(store@, Operation::SetZMachineCoordinate, *request) == Err::<(int, int, int), CoreError>(r->Err_0),
        r is Ok ==> exists|c: ResolvedCoordinates|
            target_of(store@, Operation::SetZMachineCoordinate, *request) == Ok::<(int, int, int), CoreError>(#[trigger] as_triple(c))
                && r->Ok_0.text@ == z_machine_program(c)
                && r->Ok_0.filename@ == filename_text(Operation::SetZMachineCoordinate),
{
    generate(store, Operation::SetZMachineCoordinate, request)
}

} // verus!

verus! {

/// Rendering is a function of its inputs: two renderings of the same operation
/// at the same coordinates are the same text.
pub proof fn lemma_render_deterministic(op: Operation, a: ResolvedCoordinates, b: ResolvedCoordinates)
    requires
        a == b,
    ensures
        program_text(op, a) == program_text(op, b),
{
}

/// The set-Z program's Z is the stored Z, raised by the thickness and the
/// clearance when the height flag is set and unchanged otherwise; the
/// workpiece-zero flag has no part in it.
pub proof fn lemma_set_z_target(s: Seq<crate::store::CoordinateView>, request: GenerateRequest)
    requires
        crate::resolver::thickness_valid(request.plywood_thickness as int),
        crate::store::lookup(s, crate::ident::uuid_text(request.router_bit.id)) is Some,
    ensures
        ({
            let c = crate::store::lookup(s, crate::ident::uuid_text(request.router_bit.id))->Some_0;
            let t = request.plywood_thickness as int;
            &&& request.calculate_workpiece_height ==> target_of(s, Operation::SetZMachineCoordinate, request)
                == Ok::<(int, int, int), CoreError>((c.x, c.y, c.z + t + 2 * crate::fixed::UNITS_PER_INCH))
            &&& !request.calculate_workpiece_height ==> target_of(s, Operation::SetZMachineCoordinate, request)
                == Ok::<(int, int, int), CoreError>((c.x, c.y, c.z))
        }),
{
}

/// Requests that differ only in the workpiece-zero flag lead to the same
/// set-Z program: the two adjustments never compound.
pub proof fn lemma_set_z_ignores_workpiece_zero(s: Seq<crate::store::CoordinateView>, a: GenerateRequest, b: GenerateRequest)
    requires
        a.router_bit.id == b.router_bit.id,
        a.plywood_thickness == b.plywood_thickness,
        a.calculate_workpiece_height == b.calculate_workpiece_height,
    ensures
        target_of(s, Operation::SetZMachineCoordinate, a) == target_of(s, Operation::SetZMachineCoordinate, b),
{
}

} // verus!
