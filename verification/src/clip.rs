//! What saving a clip needs besides the frames: the name of the file, the
//! messages, and the answers to the encoder's progress reports.

use vstd::prelude::*;
use vstd::string::*;
use crate::text::{decimal, decimal_text};

verus! {

/// Answers the progress reports of the encoder's writer.
#[derive(Debug)]
pub struct WriterProgress {}

impl WriterProgress {
    /// Called for each frame written. The answer is always to go on: a
    /// clip is never cancelled.
    pub fn increase(&mut self) -> (go_on: bool)
        ensures
            go_on,
    {
        true
    }

    /// Called when the writer is done; gives the message for the log.
    pub fn done(&mut self, msg: &str) -> (line: String)
        ensures
            line@ == "Progress done: "@ + msg@,
    {
        let mut line = String::from_str("Progress done: ");
        line.append(msg);
        line
    }
}

/// The name of a clip's file: the output directory as written, the time of
/// the trigger in milliseconds since the epoch, and the extension.
pub open spec fn gif_file_name_text(path: Seq<char>, epoch_millis: nat) -> Seq<char> {
    path + decimal_text(epoch_millis) + seq!['.', 'g', 'i', 'f']
}

/// Names the file of a clip.
pub fn gif_file_name(path: &str, epoch_millis: u128) -> (name: String)
    ensures
        name@ == gif_file_name_text(path@, epoch_millis as nat),
{
    proof {
        reveal_strlit(".gif");
    }
    let mut name = String::from_str(path);
    let millis = decimal(epoch_millis);
    name.append(millis.as_str());
    name.append(".gif");
    assert(name@ =~= gif_file_name_text(path@, epoch_millis as nat));
    name
}

/// The message that tells the user a clip was written.
pub fn created_message(file_name: &str) -> (message: String)
    ensures
        message@ == "Gif '"@ + file_name@ + "' created!"@,
{
    let mut message = String::from_str("Gif '");
    message.append(file_name);
    message.append("' created!");
    message
}

/// The message that tells the user a clip could not be written, with the
/// reason as the failing step gave it.
pub fn failed_message(reason: &str) -> (message: String)
    ensures
        message@ == "Clip failed: "@ + reason@,
{
    let mut message = String::from_str("Clip failed: ");
    message.append(reason);
    message
}

} // verus!
