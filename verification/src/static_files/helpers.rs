use std::path::Path;
use vstd::prelude::*;

verus! {

/// A character that `sanitize_filename` never leaves in a name: a path separator, one
/// of `? < > : * | "`, or a control character.
pub open spec fn is_unsafe_in_names(c: char) -> bool {
    ||| c == '/'
    ||| c == '\\'
    ||| c == '?'
    ||| c == '<'
    ||| c == '>'
    ||| c == ':'
    ||| c == '*'
    ||| c == '|'
    ||| c == '"'
    ||| c <= '\x1f'
    ||| '\u{80}' <= c <= '\u{9f}'
}

/// A name that holds no character that is unsafe in names.
pub open spec fn is_safe_name(s: Seq<char>) -> bool {
    forall|i: int| 0 <= i < s.len() ==> !is_unsafe_in_names(#[trigger] s[i])
}

/// The name that `sanitize` of the `sanitize_filename` crate makes of `name`, on the
/// platform that the crate is built for.
pub uninterp spec fn sanitized_name(name: Seq<char>) -> Seq<char>;

/// The extension that `Path::extension` of std finds in `name`, on the platform that
/// the crate is built for; `None` where it finds none.
pub uninterp spec fn path_extension(name: Seq<char>) -> Option<Seq<char>>;

/// Calls `sanitize` of the `sanitize_filename` crate. What it makes of a name depends
/// on the name alone; which names it takes for reserved is fixed by the platform that
/// the crate is built for, so the result is known by name. On every platform the
/// result has lost the path separators, the characters `? < > : * | "` and the
/// control characters.
#[verifier::external_body]
fn sanitize(name: &str) -> (r: String)
    ensures
        r@ == sanitized_name(name@),
        is_safe_name(r@),
{
    sanitize_filename::sanitize(name)
}

/// Whether `extension` stands in `name` directly after a dot, and holds no dot
/// itself.
pub open spec fn is_extension_in(name: Seq<char>, extension: Seq<char>) -> bool {
    &&& !extension.contains('.')
    &&& exists|dot: int|
        0 <= dot && dot + 1 + extension.len() <= name.len() && #[trigger] name[dot] == '.'
            && name.subrange(dot + 1, dot + 1 + extension.len()) == extension
}

/// Calls `Path::extension` of std on `name`. What it finds depends on the name alone;
/// which part of a name counts as its file name is fixed by the platform that the
/// crate is built for, so the result is known by name. On every platform the
/// extension is what follows the last dot of the file name: it is a run of the name
/// that stands directly after a dot and holds no dot itself, and a name without any
/// dot has none.
#[verifier::external_body]
fn extension_of(name: &str) -> (r: Option<String>)
    ensures
        match r {
            Some(extension) => path_extension(name@) == Some(extension@),
            None => path_extension(name@) is None,
        },
        r matches Some(extension) ==> is_extension_in(name@, extension@),
        !name@.contains('.') ==> r is None,
{
    Path::new(name).extension().map(|ext| ext.to_string_lossy().into_owned())
}

/// Why an upload cannot be given a place among the stored files.
#[derive(Clone, Copy, Debug, PartialEq, Eq, Structural)]
pub enum RenameError {
    /// The upload came without a file name.
    NoFileName,
    /// The upload's file name has no extension.
    NoExtension,
}

/// What a caller is told of an upload that cannot be placed.
pub open spec fn rename_error_text(e: RenameError) -> Seq<char> {
    match e {
        RenameError::NoFileName => "No file name in content-disposition header"@,
        RenameError::NoExtension => "File has no extension"@,
    }
}

/// What a caller is told of an upload that cannot be placed.
pub fn rename_error_message(e: RenameError) -> (text: String)
    ensures
        text@ == rename_error_text(e),
{
    match e {
        RenameError::NoFileName => "No file name in content-disposition header".to_owned(),
        RenameError::NoExtension => "File has no extension".to_owned(),
    }
}

/// Where an upload goes: the name under which it is recorded, and the sanitized name
/// of the file that holds it.
#[derive(Debug)]
pub struct RenameTarget {
    pub file_name: String,
    pub stored_as: String,
}

/// A `RenameTarget` as plain values, as contracts speak of it.
pub struct RenameTargetView {
    pub file_name: Seq<char>,
    pub stored_as: Seq<char>,
}

impl View for RenameTarget {
    type V = RenameTargetView;

    open spec fn view(&self) -> RenameTargetView {
        RenameTargetView { file_name: self.file_name@, stored_as: self.stored_as@ }
    }
}

/// The name under which an upload is recorded: the new name, a dot, and the
/// extension of the name it was uploaded under.
pub open spec fn renamed(new_file_name: Seq<char>, extension: Seq<char>) -> Seq<char> {
    new_file_name + seq!['.'] + extension
}

/// The name under which an upload with the extension `extension` is recorded.
pub fn renamed_file(new_file_name: &str, extension: &str) -> (name: String)
    ensures
        name@ == renamed(new_file_name@, extension@),
{
    let mut name = new_file_name.to_owned();
    proof {
        reveal_strlit(".");
    }
    name.append(".");
    name.append(extension);
    name
}

/// The name under which an upload is recorded, given the name it was uploaded under
/// and the extension found in that name.
pub fn recorded_name(
    uploaded_name: Option<&str>,
    extension: Option<&str>,
    new_file_name: &str,
) -> (r: Result<String, RenameError>)
    ensures
        match (uploaded_name, extension) {
            (None, _) => r == Err::<String, RenameError>(RenameError::NoFileName),
            (Some(_), None) => r == Err::<String, RenameError>(RenameError::NoExtension),
            (Some(_), Some(extension)) => r matches Ok(name) && name@ == renamed(
                new_file_name@,
                extension@,
            ),
        },
{
    if uploaded_name.is_none() {
        return Err(RenameError::NoFileName);
    }
    match extension {
        None => Err(RenameError::NoExtension),
        Some(extension) => Ok(renamed_file(new_file_name, extension)),
    }
}

/// The place found for an upload, or the reason why none was found, as plain values.
pub open spec fn place_view(place: Result<RenameTarget, RenameError>) -> Result<
    RenameTargetView,
    RenameError,
> {
    match place {
        Ok(target) => Ok(target@),
        Err(e) => Err(e),
    }
}

/// The place of an upload that came under the name `uploaded_name` and is to be
/// kept as `new_file_name`. An upload without a name has no place, and neither has
/// one in whose name no extension is found. For any other, the recorded name is the
/// new name, a dot, and the extension of the uploaded name; the file itself goes
/// under the sanitized form of the recorded name.
pub open spec fn place_of(uploaded_name: Option<Seq<char>>, new_file_name: Seq<char>) -> Result<
    RenameTargetView,
    RenameError,
> {
    match uploaded_name {
        None => Err(RenameError::NoFileName),
        Some(name) => match path_extension(name) {
            None => Err(RenameError::NoExtension),
            Some(extension) => Ok(
                RenameTargetView {
                    file_name: renamed(new_file_name, extension),
                    stored_as: sanitized_name(renamed(new_file_name, extension)),
                },
            ),
        },
    }
}

/// What is known of a place once it has been found: it is found only for a name that
/// holds a dot; the extension it keeps stands in the uploaded name directly after a
/// dot; and the name that the file goes under holds nothing unsafe.
pub open spec fn is_sound_place(
    uploaded_name: Option<Seq<char>>,
    new_file_name: Seq<char>,
    place: Result<RenameTargetView, RenameError>,
) -> bool {
    place matches Ok(target) ==> (uploaded_name matches Some(name) && {
        &&& name.contains('.')
        &&& is_safe_name(target.stored_as)
        &&& exists|extension: Seq<char>|
            is_extension_in(name, extension) && target.file_name == renamed(
                new_file_name,
                extension,
            )
    })
}

/// The text of a name that may not be there.
pub open spec fn name_view(name: Option<&str>) -> Option<Seq<char>> {
    match name {
        Some(name) => Some(name@),
        None => None,
    }
}

/// Finds the place for an upload that is to be kept as `new_file_name`: the recorded
/// name is the new name, a dot, and the extension of the uploaded name; the file
/// itself goes under the sanitized form of the recorded name.
pub fn rename_temp_file(uploaded_name: Option<&str>, new_file_name: &str) -> (r: Result<
    RenameTarget,
    RenameError,
>)
    ensures
        place_view(r) == place_of(name_view(uploaded_name), new_file_name@),
        is_sound_place(name_view(uploaded_name), new_file_name@, place_view(r)),
{
    let extension = match uploaded_name {
        Some(name) => extension_of(name),
        None => None,
    };
    let found = match &extension {
        Some(extension) => Some(extension.as_str()),
        None => None,
    };
    match recorded_name(uploaded_name, found, new_file_name) {
        Err(e) => Err(e),
        Ok(file_name) => {
            let stored_as = sanitize(file_name.as_str());
            Ok(RenameTarget { file_name, stored_as })
        },
    }
}

} // verus!
