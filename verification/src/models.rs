//! Data carried between the agent's logic and its callers.
//!
//! Every field the logic reads is a plain value. A JSON value produced by an
//! outside parser is carried through opaquely and never inspected here.

use vstd::prelude::*;
use vstd::string::StringExecFns;

verus! {

/// `serde_json::Value` is declared so that it can be carried in fields and
/// signatures; the library never looks inside it.
#[verifier::external_type_specification]
#[verifier::external_body]
pub struct ExValue(serde_json::Value);

/// One filesystem object in a listing.
#[derive(Debug)]
pub struct FileResponse {
    pub filename: String,
    pub filetype: String,
    pub path: String,
    pub size: u64,
    pub last_modified: String,
    pub created: String,
    pub is_dir: bool,
    pub is_file: bool,
}

/// The mathematical value of a [`FileResponse`].
pub struct FileResponseView {
    pub filename: Seq<char>,
    pub filetype: Seq<char>,
    pub path: Seq<char>,
    pub size: u64,
    pub last_modified: Seq<char>,
    pub created: Seq<char>,
    pub is_dir: bool,
    pub is_file: bool,
}

impl View for FileResponse {
    type V = FileResponseView;

    open spec fn view(&self) -> FileResponseView {
        FileResponseView {
            filename: self.filename@,
            filetype: self.filetype@,
            path: self.path@,
            size: self.size,
            last_modified: self.last_modified@,
            created: self.created@,
            is_dir: self.is_dir,
            is_file: self.is_file,
        }
    }
}

impl DeepView for FileResponse {
    type V = FileResponseView;

    open spec fn deep_view(&self) -> FileResponseView {
        self.view()
    }
}

impl Clone for FileResponse {
    fn clone(&self) -> (r: Self)
        ensures
            r == *self,
    {
        FileResponse {
            filename: self.filename.clone(),
            filetype: self.filetype.clone(),
            path: self.path.clone(),
            size: self.size,
            last_modified: self.last_modified.clone(),
            created: self.created.clone(),
            is_dir: self.is_dir,
            is_file: self.is_file,
        }
    }
}

/// A request to write one file on the device.
#[derive(Debug)]
pub struct UsbAddFileRequest {
    pub name: String,
    pub format: String,
    pub path: Option<String>,
    pub data: String,
}

/// An invocation of the board-toolchain process.
#[derive(Debug)]
pub struct ArduinoCommand {
    pub command: String,
    pub args: Vec<String>,
}

/// The outcome reported for a library upload.
#[derive(Debug)]
pub struct LibraryUploadResponse {
    pub success: bool,
    pub message: String,
    pub library_name: String,
    pub file_path: Option<String>,
}

/// The outcome reported for one toolchain or file command.
pub struct CommandResponse {
    pub success: bool,
    pub output: String,
    pub output_json: Option<serde_json::Value>,
    pub files: Option<Vec<FileResponse>>,
    pub error: Option<String>,
    pub command: String,
    pub args: Vec<String>,
}

/// Builds the structured failure response for a command.
pub fn create_error_response(error_msg: &str, command: &str, args: Vec<String>) -> (r:
    CommandResponse)
    ensures
        !r.success,
        r.output@ == Seq::<char>::empty(),
        r.output_json is None,
        r.files is None,
        r.error matches Some(e) && e@ == error_msg@,
        r.command@ == command@,
        r.args == args,
{
    CommandResponse {
        success: false,
        output: String::new(),
        output_json: None,
        files: None,
        error: Some(error_msg.to_owned()),
        command: command.to_owned(),
        args,
    }
}

/// Builds the structured success response for a command.
pub fn create_success_response(
    output: String,
    command: &str,
    args: Vec<String>,
    output_json: Option<serde_json::Value>,
) -> (r: CommandResponse)
    ensures
        r.success,
        r.output == output,
        r.files is None,
        r.error is None,
        r.command@ == command@,
        r.args == args,
{
    CommandResponse {
        success: true,
        output,
        output_json,
        files: None,
        error: None,
        command: command.to_owned(),
        args,
    }
}

/// Relies on `serde_json::from_str::<serde_json::Value>`: `Some` when the
/// text parses as JSON. The value itself is carried through opaquely.
#[verifier::external_body]
fn parse_json_value(s: &str) -> (r: Option<serde_json::Value>)
{
    match serde_json::from_str::<serde_json::Value>(s) {
        Ok(v) => Some(v),
        Err(_) => None,
    }
}

/// Assembles the response for one toolchain invocation from what the process
/// run produced: its success flag, captured output and error text. The
/// output is also offered parsed as JSON when it parses; the error text is
/// reported only when there is any.
pub fn command_outcome(
    success: bool,
    stdout: String,
    stderr: String,
    command: String,
    args: Vec<String>,
) -> (r: CommandResponse)
    ensures
        r.success == success,
        r.output == stdout,
        r.files is None,
        stderr@.len() == 0 ==> r.error is None,
        stderr@.len() > 0 ==> (r.error matches Some(e) && e == stderr),
        r.command == command,
        r.args == args,
{
    let output_json = parse_json_value(stdout.as_str());
    let error = if stderr.as_str().is_empty() {
        None
    } else {
        Some(stderr)
    };
    CommandResponse { success, output: stdout, output_json, files: None, error, command, args }
}

/// The name under which an uploaded library archive is stored.
pub fn zip_file_name(field_name: &str) -> (r: String)
    ensures
        r@ == field_name@ + ".zip"@,
{
    let mut r = field_name.to_owned();
    r.append(".zip");
    r
}

/// Assembles the acknowledgement for a completed library upload.
pub fn library_upload_response(library_name: String, file_path: Option<String>) -> (r:
    LibraryUploadResponse)
    ensures
        r.success,
        r.message@ == "Library '"@ + library_name@ + "' uploaded successfully"@,
        r.library_name == library_name,
        r.file_path == file_path,
{
    let mut message = "Library '".to_owned();
    message.append(library_name.as_str());
    message.append("' uploaded successfully");
    LibraryUploadResponse { success: true, message, library_name, file_path }
}

/// The value of the first field with the given name. An event's payload is
/// handed to the library as a map of its string fields.
pub open spec fn spec_field_lookup(
    fields: Seq<(Seq<char>, Seq<char>)>,
    name: Seq<char>,
) -> Option<Seq<char>>
    decreases fields.len(),
{
    if fields.len() == 0 {
        None
    } else if fields[0].0 == name {
        Some(fields[0].1)
    } else {
        spec_field_lookup(fields.drop_first(), name)
    }
}

/// Looks one string field up in an event payload.
pub fn extract_string_field(fields: &Vec<(String, String)>, field: &str) -> (r: Option<String>)
    ensures
        r.deep_view() == spec_field_lookup(fields.deep_view(), field@),
{
    let ghost fv = fields.deep_view();
    let mut i: usize = 0;
    let n = fields.len();
    proof {
        assert(fv.skip(0) =~= fv);
    }
    while i < n
        invariant
            i <= n == fields@.len(),
            fv == fields.deep_view(),
            spec_field_lookup(fv, field@) == spec_field_lookup(fv.skip(i as int), field@),
        decreases n - i,
    {
        let p = &fields[i];
        proof {
            assert(fv.skip(i as int)[0] == fv[i as int]);
            assert(fv[i as int] == (fields@[i as int].0@, fields@[i as int].1@));
            assert(fv.skip(i as int).drop_first() =~= fv.skip(i + 1));
        }
        let v = crate::text::chars_of(p.0.as_str());
        if crate::text::eq_lit(&v, field) {
            return Some(p.1.clone());
        }
        i = i + 1;
    }
    proof {
        assert(fv.skip(n as int) =~= Seq::<(Seq<char>, Seq<char>)>::empty());
    }
    None
}

/// The required fields' values, in order, or the first missing field's
/// error.
pub open spec fn spec_required_fields(
    fields: Seq<(Seq<char>, Seq<char>)>,
    names: Seq<Seq<char>>,
) -> Result<Seq<Seq<char>>, Seq<char>>
    decreases names.len(),
{
    if names.len() == 0 {
        Ok(Seq::empty())
    } else {
        match spec_field_lookup(fields, names[0]) {
            None => Err("Missing "@ + names[0]),
            Some(v) => match spec_required_fields(fields, names.drop_first()) {
                Ok(rest) => Ok(seq![v] + rest),
                Err(e) => Err(e),
            },
        }
    }
}

/// Extracts several required string fields from an event payload: all their
/// values in the asked order, or an error naming the first missing field.
pub fn extract_required_fields(fields: &Vec<(String, String)>, names: &Vec<String>) -> (r: Result<
    Vec<String>,
    String,
>)
    ensures
        match r {
            Ok(values) => spec_required_fields(fields.deep_view(), names.deep_view()) == Ok::<
                Seq<Seq<char>>,
                Seq<char>,
            >(values.deep_view()),
            Err(e) => spec_required_fields(fields.deep_view(), names.deep_view()) == Err::<
                Seq<Seq<char>>,
                Seq<char>,
            >(e@),
        },
{
    let ghost fv = fields.deep_view();
    let ghost nv = names.deep_view();
    let mut out: Vec<String> = Vec::new();
    let mut i: usize = 0;
    let n = names.len();
    proof {
        assert(nv.skip(0) =~= nv);
        if spec_required_fields(fv, nv) is Ok {
            assert(out.deep_view() + spec_required_fields(fv, nv)->Ok_0 =~= spec_required_fields(
                fv,
                nv,
            )->Ok_0);
        }
    }
    while i < n
        invariant
            i <= n == names@.len(),
            fv == fields.deep_view(),
            nv == names.deep_view(),
            spec_required_fields(fv, nv) == match spec_required_fields(fv, nv.skip(i as int)) {
                Ok(rest) => Ok::<Seq<Seq<char>>, Seq<char>>(out.deep_view() + rest),
                Err(e) => Err(e),
            },
        decreases n - i,
    {
        let ghost out_old = out.deep_view();
        proof {
            assert(nv.skip(i as int)[0] == nv[i as int]);
            assert(nv[i as int] == names@[i as int]@);
            assert(nv.skip(i as int).drop_first() =~= nv.skip(i + 1));
        }
        match extract_string_field(fields, names[i].as_str()) {
            Some(v) => {
                out.push(v);
                proof {
                    let got = spec_field_lookup(fv, nv[i as int])->Some_0;
                    assert(out.deep_view() =~= out_old + seq![got]);
                    if spec_required_fields(fv, nv.skip(i + 1)) is Ok {
                        let rest = spec_required_fields(fv, nv.skip(i + 1))->Ok_0;
                        assert(out.deep_view() + rest =~= out_old + (seq![got] + rest));
                    }
                }
            },
            None => {
                let mut e = "Missing ".to_owned();
                e.append(names[i].as_str());
                return Err(e);
            },
        }
        i = i + 1;
    }
    proof {
        assert(nv.skip(n as int) =~= Seq::<Seq<char>>::empty());
        assert(out.deep_view() + Seq::<Seq<char>>::empty() =~= out.deep_view());
    }
    Ok(out)
}

/// Folds one device-tool run into its reported outcome: the captured output
/// on success, or the given error prefix followed by the captured error text.
pub fn tool_outcome(success: bool, stdout: String, stderr: String, err_prefix: &str) -> (r: Result<
    String,
    String,
>)
    ensures
        success ==> (r matches Ok(s) && s == stdout),
        !success ==> (r matches Err(e) && e@ == err_prefix@ + stderr@),
{
    if success {
        Ok(stdout)
    } else {
        let mut e = err_prefix.to_owned();
        e.append(stderr.as_str());
        Err(e)
    }
}

} // verus!
