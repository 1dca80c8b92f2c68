//! Rooms: how the participant gets into one, and what goes with a file it
//! sends there.

use vstd::prelude::*;
use vstd::string::StringExecFns;

verus! {

/// `image::ImageError`, the error of a picture that does not decode. It is
/// carried and never looked into.
#[verifier::external_type_specification]
#[verifier::external_body]
pub struct ExImageError(image::ImageError);

/// `blurhash::Error`, the error of a blur hash that cannot be computed. It
/// is carried and never looked into.
#[verifier::external_type_specification]
#[verifier::external_body]
pub struct ExBlurhashError(blurhash::Error);

/// The media type `mime_guess` has for a file extension, as its top-level
/// type and as the whole type; the type of arbitrary bytes where it has
/// none.
pub uninterp spec fn guessed_mime(extension: Seq<char>) -> (Seq<char>, Seq<char>);

/// The width and height of the picture that `image` decodes the bytes to;
/// `None` for bytes it does not decode.
pub uninterp spec fn decoded_dimensions(bytes: Seq<u8>) -> Option<(u32, u32)>;

/// `mime_guess::from_ext` on the extension, then
/// `MimeGuess::first_or_octet_stream`; of the media type it hands out the
/// top-level type and the whole type as text. The contract gives the two
/// their name: the guess is looked up in a table and is a matter of the
/// extension alone.
#[verifier::external_body]
fn guess_mime(extension: &str) -> (r: (String, String))
    ensures
        (r.0@, r.1@) == guessed_mime(extension@),
{
    let mime = mime_guess::from_ext(extension).first_or_octet_stream();
    (mime.type_().to_string(), mime.to_string())
}

/// `image::load_from_memory` on the bytes; of the picture it hands out the
/// width, the height and the pixels as `to_rgba8` lays them out, four bytes
/// each. The contract names the dimensions, claims that there are four
/// bytes for every pixel, and that the error is that of bytes that do not
/// decode. Nothing is claimed of what the pixels hold.
#[verifier::external_body]
fn decode_image(bytes: &[u8]) -> (r: Result<(u32, u32, Vec<u8>), image::ImageError>)
    ensures
        match r {
            Ok((width, height, rgba)) => decoded_dimensions(bytes@) == Some((width, height))
                && rgba@.len() == 4 * width * height,
            Err(_) => decoded_dimensions(bytes@) is None,
        },
{
    let decoded = image::load_from_memory(bytes)?;
    let (width, height) = image::GenericImageView::dimensions(&decoded);
    Ok((width, height, decoded.to_rgba8().into_raw()))
}

/// `blurhash::encode`: the blur hash of a picture given as rows of pixels
/// of four bytes. The function reads four bytes for every pixel, computes
/// their places in 32 bits and divides by the number of pixels, so the
/// contract demands a picture that is not empty and whose bytes can be
/// counted in 32 bits; it fails
/// exactly when a component count is outside 1 to 9, and a hash has one
/// character for the counts, one for the scale, four for the average and
/// two for every further component. Nothing is claimed of the characters:
/// they come out of floating point sums.
#[verifier::external_body]
fn blurhash_encode(components_x: u32, components_y: u32, width: u32, height: u32, rgba: &[u8]) -> (r:
    Result<String, blurhash::Error>)
    requires
        width >= 1,
        height >= 1,
        rgba@.len() == 4 * width * height,
        4 * width * height <= u32::MAX,
    ensures
        r is Ok <==> (1 <= components_x <= 9 && 1 <= components_y <= 9),
        r matches Ok(hash) ==> hash@.len() == 4 + 2 * components_x * components_y,
{
    blurhash::encode(components_x, components_y, width, height, rgba)
}

/// How many components a blur hash gets across.
pub const BLURHASH_COMPONENTS_X: u32 = 4;

/// How many components a blur hash gets down.
pub const BLURHASH_COMPONENTS_Y: u32 = 3;

/// The largest size, in bytes, that the protocol can state of a file.
pub const MAX_STATED_SIZE: u64 = 9_007_199_254_740_991;

/// What is told of a picture along with it.
#[derive(Clone, Debug, PartialEq, Eq)]
pub struct ImageInfo {
    pub height: u32,
    pub width: u32,
    pub size: u64,
    pub blurhash: String,
}

/// A file ready to be sent: its name, its media type, and for a picture
/// what is told of it.
#[derive(Clone, Debug, PartialEq, Eq)]
pub struct Attachment {
    pub file_name: String,
    pub mime: String,
    pub image: Option<ImageInfo>,
}

/// Why a file cannot be sent.
#[derive(Clone, Copy, Debug, PartialEq, Eq, Structural)]
pub enum AttachmentError {
    /// The file is named as a picture and does not decode as one.
    NotAnImage,
    /// The picture has no pixels, or more than a blur hash can be computed
    /// of.
    BadDimensions,
    /// The blur hash could not be computed.
    NoBlurhash,
    /// The file is larger than the protocol can state.
    TooLarge,
}

/// The name a file is sent under when its path gives none.
pub open spec fn fallback_name() -> Seq<char> {
    "image.jpg"@
}

/// The name a file is sent under.
pub open spec fn sent_name(file_name: Option<Seq<char>>) -> Seq<char> {
    match file_name {
        Some(n) => n,
        None => fallback_name(),
    }
}

/// The media type a file is sent with: that of its extension, or that of
/// arbitrary bytes for a file without one.
pub open spec fn sent_mime(extension: Option<Seq<char>>) -> (Seq<char>, Seq<char>) {
    match extension {
        Some(e) => guessed_mime(e),
        None => guessed_mime(Seq::empty()),
    }
}

/// Whether a file is sent as a picture: its media type is one of the
/// picture types.
pub open spec fn is_picture(extension: Option<Seq<char>>) -> bool {
    sent_mime(extension).0 == "image"@
}

/// Whether a picture has pixels, and no more than can be addressed in 32
/// bits at four bytes each.
pub open spec fn pixels_fit(width: u32, height: u32) -> bool {
    width >= 1 && height >= 1 && 4 * width * height <= u32::MAX
}

/// What preparing a picture comes to, once it is known how the bytes
/// decode.
pub open spec fn picture_outcome(dimensions: Option<(u32, u32)>, size: nat) -> Result<
    (u32, u32),
    AttachmentError,
> {
    match dimensions {
        None => Err(AttachmentError::NotAnImage),
        Some((width, height)) => if !pixels_fit(width, height) {
            Err(AttachmentError::BadDimensions)
        } else if size > MAX_STATED_SIZE {
            Err(AttachmentError::TooLarge)
        } else {
            Ok((width, height))
        },
    }
}

/// Checks what is to be told of a decoded picture of `size` bytes: it has
/// to have pixels, addressable in 32 bits, and its size has to be one the
/// protocol can state.
pub fn check_picture(dimensions: Option<(u32, u32)>, size: usize) -> (r: Result<
    (u32, u32),
    AttachmentError,
>)
    ensures
        r == picture_outcome(dimensions, size as nat),
{
    match dimensions {
        None => Err(AttachmentError::NotAnImage),
        Some((width, height)) => {
            assert(width * height <= 0xffff_ffff * 0xffff_ffff) by (nonlinear_arith)
                requires
                    width <= 0xffff_ffff,
                    height <= 0xffff_ffff,
            ;
            let area: u128 = (width as u128) * (height as u128);
            let pixels: u128 = 4 * area;
            assert(pixels == 4 * width * height) by (nonlinear_arith)
                requires
                    pixels == 4 * (width * height),
            ;
            if width == 0 || height == 0 || pixels > (u32::MAX as u128) {
                Err(AttachmentError::BadDimensions)
            } else if (size as u128) > (MAX_STATED_SIZE as u128) {
                Err(AttachmentError::TooLarge)
            } else {
                Ok((width, height))
            }
        },
    }
}

/// Prepares a file for sending. `file_name` and `extension` are those of
/// its path, where the path has them; `file` is what the file holds.
///
/// The file goes out under its own name, or as `image.jpg` where it has
/// none, with the media type of its extension. A file of a picture type is
/// decoded: what is told of it is its width and height, its size in bytes
/// and a blur hash of four by three components. Any other file goes out
/// with nothing told of it.
pub fn prepare_send_attachment(file_name: Option<&str>, extension: Option<&str>, file: &Vec<u8>) -> (r:
    Result<Attachment, AttachmentError>)
    ensures
        ({
            let name = match file_name {
                Some(n) => Some(n@),
                None => None,
            };
            let ext = match extension {
                Some(e) => Some(e@),
                None => None,
            };
            match r {
                Ok(a) => {
                    &&& a.file_name@ == sent_name(name)
                    &&& a.mime@ == sent_mime(ext).1
                    &&& a.image is Some <==> is_picture(ext)
                    &&& a.image matches Some(info) ==> {
                        &&& picture_outcome(decoded_dimensions(file@), file@.len()) == Ok::<
                            (u32, u32),
                            AttachmentError,
                        >((info.width, info.height))
                        &&& info.size == file@.len()
                        &&& info.blurhash@.len() == 28
                    }
                },
                Err(e) => is_picture(ext) && picture_outcome(
                    decoded_dimensions(file@),
                    file@.len(),
                ) == Err::<(u32, u32), AttachmentError>(e),
            }
        }),
{
    let name = match file_name {
        Some(n) => String::from_str(n),
        None => String::from_str("image.jpg"),
    };
    let (kind, mime) = match extension {
        Some(e) => guess_mime(e),
        None => guess_mime(""),
    };
    proof {
        reveal_strlit("");
        assert(""@ =~= Seq::<char>::empty());
    }
    if !(kind == String::from_str("image")) {
        return Ok(Attachment { file_name: name, mime, image: None });
    }
    let (dimensions, rgba) = match decode_image(file.as_slice()) {
        Ok((width, height, rgba)) => (Some((width, height)), rgba),
        Err(_) => (None, Vec::new()),
    };
    let (width, height) = match check_picture(dimensions, file.len()) {
        Ok(d) => d,
        Err(e) => {
            return Err(e);
        },
    };
    match blurhash_encode(
        BLURHASH_COMPONENTS_X,
        BLURHASH_COMPONENTS_Y,
        width,
        height,
        rgba.as_slice(),
    ) {
        Ok(blurhash) => Ok(
            Attachment {
                file_name: name,
                mime,
                image: Some(ImageInfo { height, width, size: file.len() as u64, blurhash }),
            },
        ),
        Err(_) => Err(AttachmentError::NoBlurhash),
    }
}

/// Where the participant stands on its way into a room.
#[derive(Clone, Copy, Debug, PartialEq, Eq, Structural)]
pub enum RoomStep {
    /// Ask whether the participant is logged in.
    AskLoggedIn,
    /// Synchronize once with the server.
    Sync,
    /// Ask whether the participant has joined the room.
    AskJoined,
    /// Ask whether the participant is invited to the room.
    AskInvited,
    /// Accept the invitation.
    AcceptInvitation,
    /// Ask whether the participant has joined the room now.
    AskJoinedAfterInvitation,
    /// The participant is in the room.
    Entered,
    /// The way ended with an error.
    Failed(RoomError),
}

/// Why the participant did not get into a room.
#[derive(Clone, Copy, Debug, PartialEq, Eq, Structural)]
pub enum RoomError {
    NotLoggedIn,
    SyncFailed,
    InvitationNotAccepted,
    RoomNotFound,
}

/// The step that follows `step` when it went well, or was answered with
/// yes, and when not.
pub open spec fn room_step_after(step: RoomStep, yes: bool) -> RoomStep {
    match step {
        RoomStep::AskLoggedIn => if yes {
            RoomStep::Sync
        } else {
            RoomStep::Failed(RoomError::NotLoggedIn)
        },
        RoomStep::Sync => if yes {
            RoomStep::AskJoined
        } else {
            RoomStep::Failed(RoomError::SyncFailed)
        },
        RoomStep::AskJoined => if yes {
            RoomStep::Entered
        } else {
            RoomStep::AskInvited
        },
        RoomStep::AskInvited => if yes {
            RoomStep::AcceptInvitation
        } else {
            RoomStep::Failed(RoomError::RoomNotFound)
        },
        RoomStep::AcceptInvitation => if yes {
            RoomStep::AskJoinedAfterInvitation
        } else {
            RoomStep::Failed(RoomError::InvitationNotAccepted)
        },
        RoomStep::AskJoinedAfterInvitation => if yes {
            RoomStep::Entered
        } else {
            RoomStep::Failed(RoomError::RoomNotFound)
        },
        RoomStep::Entered => RoomStep::Entered,
        RoomStep::Failed(e) => RoomStep::Failed(e),
    }
}

/// The step that follows `step`, given how it went: the participant has to
/// be logged in and in step with the server; it enters a room it has joined,
/// and accepts an invitation to one it has not.
pub fn next_room_step(step: RoomStep, yes: bool) -> (next: RoomStep)
    ensures
        next == room_step_after(step, yes),
{
    match step {
        RoomStep::AskLoggedIn => if yes {
            RoomStep::Sync
        } else {
            RoomStep::Failed(RoomError::NotLoggedIn)
        },
        RoomStep::Sync => if yes {
            RoomStep::AskJoined
        } else {
            RoomStep::Failed(RoomError::SyncFailed)
        },
        RoomStep::AskJoined => if yes {
            RoomStep::Entered
        } else {
            RoomStep::AskInvited
        },
        RoomStep::AskInvited => if yes {
            RoomStep::AcceptInvitation
        } else {
            RoomStep::Failed(RoomError::RoomNotFound)
        },
        RoomStep::AcceptInvitation => if yes {
            RoomStep::AskJoinedAfterInvitation
        } else {
            RoomStep::Failed(RoomError::InvitationNotAccepted)
        },
        RoomStep::AskJoinedAfterInvitation => if yes {
            RoomStep::Entered
        } else {
            RoomStep::Failed(RoomError::RoomNotFound)
        },
        RoomStep::Entered => RoomStep::Entered,
        RoomStep::Failed(e) => RoomStep::Failed(e),
    }
}

/// What a room error says. `detail` is what the server said, for the two
/// errors that come from it, and the id of the room for a room that was not
/// found.
pub open spec fn room_error_text(error: RoomError, detail: Seq<char>) -> Seq<char> {
    match error {
        RoomError::NotLoggedIn => "Not logged in"@,
        RoomError::SyncFailed => "Can't sync: "@ + detail,
        RoomError::InvitationNotAccepted => "Can't accept invitation:"@ + detail,
        RoomError::RoomNotFound => "Can't find room "@ + detail,
    }
}

/// The error in words.
pub fn room_error_message(error: RoomError, detail: &str) -> (text: String)
    ensures
        text@ == room_error_text(error, detail@),
{
    match error {
        RoomError::NotLoggedIn => String::from_str("Not logged in"),
        RoomError::SyncFailed => {
            let mut text = String::from_str("Can't sync: ");
            text.append(detail);
            text
        },
        RoomError::InvitationNotAccepted => {
            let mut text = String::from_str("Can't accept invitation:");
            text.append(detail);
            text
        },
        RoomError::RoomNotFound => {
            let mut text = String::from_str("Can't find room ");
            text.append(detail);
            text
        },
    }
}

} // verus!
