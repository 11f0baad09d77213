//! The ways in which an application can be installed.

use vstd::prelude::*;

verus! {

/// Where an installed application keeps its executables.
#[derive(Debug, PartialEq, Eq)]
pub enum BinFolder {
    /// the executables are in the root folder of the installation
    Root,
    /// the executables are in the given subfolder
    Subfolder { path: String },
    /// the executables are in one of the given subfolders
    Subfolders { options: Vec<String> },
    /// the executables are in the root folder or in one of the given subfolders
    RootOrSubfolders { options: Vec<String> },
}

/// A way to install an application.
#[derive(Debug, PartialEq, Eq)]
pub enum Method {
    /// download and unpack an archive
    DownloadArchive { url: String, bin_folder: BinFolder },
    /// download and unpack an archive and take the executable at the given path in it
    DownloadArchiveFile { url: String, path_in_archive: String },
    /// download the executable itself
    DownloadExecutable { url: String },
    /// compile the application from its Go source code
    CompileGoSource { import_path: String },
    /// compile the application from its Rust source code
    CompileRustSource { crate_name: &'static str, bin_folder: BinFolder },
}

/// The mathematical form of a [`BinFolder`].
pub enum BinFolderView {
    Root,
    Subfolder { path: Seq<char> },
    Subfolders { options: Seq<Seq<char>> },
    RootOrSubfolders { options: Seq<Seq<char>> },
}

/// The mathematical form of a [`Method`].
pub enum MethodView {
    DownloadArchive { url: Seq<char>, bin_folder: BinFolderView },
    DownloadArchiveFile { url: Seq<char>, path_in_archive: Seq<char> },
    DownloadExecutable { url: Seq<char> },
    CompileGoSource { import_path: Seq<char> },
    CompileRustSource { crate_name: Seq<char>, bin_folder: BinFolderView },
}

/// The texts of a sequence of strings.
pub open spec fn texts(s: Seq<String>) -> Seq<Seq<char>> {
    s.map_values(|t: String| t@)
}

impl View for BinFolder {
    type V = BinFolderView;

    open spec fn view(&self) -> BinFolderView {
        match self {
            BinFolder::Root => BinFolderView::Root,
            BinFolder::Subfolder { path } => BinFolderView::Subfolder { path: path@ },
            BinFolder::Subfolders { options } => BinFolderView::Subfolders { options: texts(options@) },
            BinFolder::RootOrSubfolders { options } => BinFolderView::RootOrSubfolders { options: texts(options@) },
        }
    }
}

impl View for Method {
    type V = MethodView;

    open spec fn view(&self) -> MethodView {
        match self {
            Method::DownloadArchive { url, bin_folder } => MethodView::DownloadArchive { url: url@, bin_folder: bin_folder@ },
            Method::DownloadArchiveFile { url, path_in_archive } => MethodView::DownloadArchiveFile {
                url: url@,
                path_in_archive: path_in_archive@,
            },
            Method::DownloadExecutable { url } => MethodView::DownloadExecutable { url: url@ },
            Method::CompileGoSource { import_path } => MethodView::CompileGoSource { import_path: import_path@ },
            Method::CompileRustSource { crate_name, bin_folder } => MethodView::CompileRustSource {
                crate_name: crate_name@,
                bin_folder: bin_folder@,
            },
        }
    }
}

/// The mathematical form of a list of installation methods.
pub open spec fn methods_view(methods: Seq<Method>) -> Seq<MethodView> {
    methods.map_values(|m: Method| m@)
}

} // verus!

verus! {

/// A list with one installation method.
pub fn one_method(m: Method) -> (v: Vec<Method>)
    ensures
        methods_view(v@) == seq![m@],
{
    let mut v = Vec::new();
    v.push(m);
    assert(methods_view(v@) =~= seq![m@]);
    v
}

/// A list with two installation methods, in the given order.
pub fn two_methods(first: Method, second: Method) -> (v: Vec<Method>)
    ensures
        methods_view(v@) == seq![first@, second@],
{
    let ghost f = first@;
    let ghost s = second@;
    let mut v = Vec::new();
    v.push(first);
    v.push(second);
    assert(methods_view(v@) =~= seq![f, s]);
    v
}

/// A list of two texts.
pub fn two_texts(first: String, second: String) -> (v: Vec<String>)
    ensures
        texts(v@) == seq![first@, second@],
{
    let ghost f = first@;
    let ghost s = second@;
    let mut v = Vec::new();
    v.push(first);
    v.push(second);
    assert(texts(v@) =~= seq![f, s]);
    v
}

} // verus!

verus! {

/// An empty list of texts.
pub fn no_texts() -> (v: Vec<String>)
    ensures
        texts(v@) == Seq::<Seq<char>>::empty(),
{
    let v = Vec::new();
    assert(texts(v@) =~= Seq::<Seq<char>>::empty());
    v
}

} // verus!
