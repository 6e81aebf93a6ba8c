//! The version information embedded in each patch DLL: its strings, and the
//! Windows resource that carries them.

use vstd::prelude::*;
use vstd::string::{StrSliceExecFns, StringExecFns};
use winresource::WindowsResource;

verus! {

/// `s` with every `from` replaced by the text `to`.
pub open spec fn replace_char(s: Seq<char>, from: char, to: Seq<char>) -> Seq<char>
    decreases s.len(),
{
    if s.len() == 0 {
        Seq::empty()
    } else {
        replace_char(s.drop_last(), from, to) + if s.last() == from {
            to
        } else {
            seq![s.last()]
        }
    }
}

/// `s` with every `from` replaced by `to`.
pub fn replace(s: &str, from: char, to: &str) -> (r: String)
    ensures
        r@ == replace_char(s@, from, to@),
{
    let n = s.unicode_len();
    let mut out = String::new();
    let mut i: usize = 0;
    while i < n
        invariant
            n == s@.len(),
            i <= n,
            out@ == replace_char(s@.subrange(0, i as int), from, to@),
        decreases n - i,
    {
        let c = s.get_char(i);
        if c == from {
            out.append(to);
        } else {
            out.append(s.substring_char(i, i + 1));
        }
        let ghost next = s@.subrange(0, i + 1);
        assert(next.drop_last() =~= s@.subrange(0, i as int));
        assert(s@.subrange(i as int, i + 1) =~= seq![c]);
        i += 1;
    }
    assert(s@.subrange(0, n as int) =~= s@);
    out
}

/// The strings of a DLL's version information.
pub struct ResourceStrings {
    pub original_filename: String,
    pub internal_name: String,
    pub file_description: String,
    pub product_name: String,
    /// Present only when the package has authors.
    pub company_name: Option<String>,
}

/// The file name of a patch DLL: the package name with `-` turned into `_`, and
/// the `.asi` extension.
pub open spec fn asi_file_name(pkg_name: Seq<char>) -> Seq<char> {
    replace_char(pkg_name, '-', "_"@) + ".asi"@
}

/// The version-information strings of the package named `pkg_name`, with
/// description `pkg_desc` (the name when there is none) and colon-separated
/// authors `pkg_authors` (none when absent): both file names are the `.asi`
/// file name, the description and product name are the description and the
/// name, and the company is the authors joined by `, `, if there are any.
pub fn resource_strings(pkg_name: &str, pkg_desc: Option<&str>, pkg_authors: Option<&str>) -> (r:
    ResourceStrings)
    ensures
        r.original_filename@ == asi_file_name(pkg_name@),
        r.internal_name@ == asi_file_name(pkg_name@),
        r.file_description@ == match pkg_desc {
            Some(d) => d@,
            None => pkg_name@,
        },
        r.product_name@ == pkg_name@,
        pkg_authors is None ==> r.company_name is None,
        pkg_authors matches Some(a) ==> (a@.len() == 0 <==> r.company_name is None),
        pkg_authors matches Some(a) ==> (r.company_name matches Some(c) ==> c@ == replace_char(
            a@,
            ':',
            ", "@,
        )),
{
    let mut file_name = replace(pkg_name, '-', "_");
    file_name.append(".asi");
    let file_description = match pkg_desc {
        Some(d) => String::from_str(d),
        None => String::from_str(pkg_name),
    };
    let company_name = match pkg_authors {
        Some(a) => {
            let joined = replace(a, ':', ", ");
            if a.unicode_len() == 0 {
                None
            } else {
                Some(joined)
            }
        },
        None => None,
    };
    ResourceStrings {
        original_filename: file_name.clone(),
        internal_name: file_name,
        file_description,
        product_name: String::from_str(pkg_name),
        company_name,
    }
}

#[verifier::external_type_specification]
#[verifier::external_body]
pub struct ExWindowsResource(winresource::WindowsResource);

/// The string properties of the version information that a resource holds, by
/// property name.
pub uninterp spec fn resource_properties(r: WindowsResource) -> Map<Seq<char>, Seq<char>>;

/// The numeric fields of the version information that a resource holds.
pub uninterp spec fn resource_version_info(r: WindowsResource) -> Map<VersionField, u64>;

/// A numeric field of the version information.
pub enum VersionField {
    FileVersion,
    ProductVersion,
    FileOs,
    FileType,
    FileSubtype,
    FileFlagsMask,
    FileFlags,
}

/// `WindowsResource::set`, which stores `value` under the property `name`,
/// replacing what was there: the contract says the properties gain that entry
/// and the numeric fields stay.
#[verifier::external_body]
fn set_property(r: &mut WindowsResource, name: &str, value: &str)
    ensures
        resource_properties(*final(r)) == resource_properties(*old(r)).insert(name@, value@),
        resource_version_info(*final(r)) == resource_version_info(*old(r)),
{
    r.set(name, value);
}

/// `WindowsResource::set_version_info`, which stores `value` in the numeric
/// field `field`: the contract says that field gets the value and the string
/// properties stay.
#[verifier::external_body]
fn set_version_info(r: &mut WindowsResource, field: VersionField, value: u64)
    ensures
        resource_version_info(*final(r)) == resource_version_info(*old(r)).insert(field, value),
        resource_properties(*final(r)) == resource_properties(*old(r)),
{
    let field = match field {
        VersionField::FileVersion => winresource::VersionInfo::FILEVERSION,
        VersionField::ProductVersion => winresource::VersionInfo::PRODUCTVERSION,
        VersionField::FileOs => winresource::VersionInfo::FILEOS,
        VersionField::FileType => winresource::VersionInfo::FILETYPE,
        VersionField::FileSubtype => winresource::VersionInfo::FILESUBTYPE,
        VersionField::FileFlagsMask => winresource::VersionInfo::FILEFLAGSMASK,
        VersionField::FileFlags => winresource::VersionInfo::FILEFLAGS,
    };
    r.set_version_info(field, value);
}

/// The properties `props` with the resource strings `s` stored: the two file
/// names, the description, the product name and, if there is one, the company.
pub open spec fn with_resource_strings(props: Map<Seq<char>, Seq<char>>, s: ResourceStrings) -> Map<
    Seq<char>,
    Seq<char>,
> {
    let p = props.insert("OriginalFilename"@, s.original_filename@).insert(
        "InternalName"@,
        s.internal_name@,
    ).insert("FileDescription"@, s.file_description@).insert("ProductName"@, s.product_name@);
    match s.company_name {
        Some(c) => p.insert("CompanyName"@, c@),
        None => p,
    }
}

/// The properties `props` with the strings of the DLL of package `name`, with
/// description `desc` and colon-separated authors `authors`: both file names are
/// the `.asi` file name, then the description and the product name; the company
/// is the authors joined by `, `, stored only if there are any.
pub open spec fn dll_properties(
    props: Map<Seq<char>, Seq<char>>,
    name: Seq<char>,
    desc: Seq<char>,
    authors: Seq<char>,
) -> Map<Seq<char>, Seq<char>> {
    let p = props.insert("OriginalFilename"@, asi_file_name(name)).insert(
        "InternalName"@,
        asi_file_name(name),
    ).insert("FileDescription"@, desc).insert("ProductName"@, name);
    if authors.len() == 0 {
        p
    } else {
        p.insert("CompanyName"@, replace_char(authors, ':', ", "@))
    }
}

/// Stores the resource strings `s` in `r`'s version information.
pub fn store_resource_strings(r: &mut WindowsResource, s: &ResourceStrings)
    ensures
        resource_properties(*final(r)) == with_resource_strings(resource_properties(*old(r)), *s),
        resource_version_info(*final(r)) == resource_version_info(*old(r)),
{
    set_property(r, "OriginalFilename", s.original_filename.as_str());
    set_property(r, "InternalName", s.internal_name.as_str());
    set_property(r, "FileDescription", s.file_description.as_str());
    set_property(r, "ProductName", s.product_name.as_str());
    match &s.company_name {
        Some(c) => set_property(r, "CompanyName", c.as_str()),
        None => {},
    }
}

/// `res` made the resource of the patch DLL of package `pkg_name`, with
/// description `pkg_desc` and authors `pkg_authors` (see `resource_strings`): its
/// file type is a DLL (2), and it holds the resource strings.
pub fn create_windows_resource(
    res: WindowsResource,
    pkg_name: &str,
    pkg_desc: Option<&str>,
    pkg_authors: Option<&str>,
) -> (r: WindowsResource)
    ensures
        resource_version_info(r) == resource_version_info(res).insert(VersionField::FileType, 2),
        resource_properties(r) == dll_properties(
            resource_properties(res),
            pkg_name@,
            match pkg_desc {
                Some(d) => d@,
                None => pkg_name@,
            },
            match pkg_authors {
                Some(a) => a@,
                None => Seq::empty(),
            },
        ),
{
    let mut res = res;
    set_version_info(&mut res, VersionField::FileType, 2);
    let strings = resource_strings(pkg_name, pkg_desc, pkg_authors);
    store_resource_strings(&mut res, &strings);
    res
}

} // verus!
