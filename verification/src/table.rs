//! The table of known file extensions and their labels.

use vstd::prelude::*;

verus! {

/// The known extensions, each without its dot and in lower case, with the
/// label that describes it.
pub open spec fn extension_labels() -> Seq<(&'static str, &'static str)> {
    seq![
        ("zip", "Zip Archive"),
        ("tar", "Tar Archive"),
        ("tar.gz", "Tar GZip Archive"),
        ("tar.bz2", "Tar BZip2 Archive"),
        ("tar.xz", "Tar XZ Archive"),
        ("7z", "7-Zip Archive"),
        ("rar", "RAR Archive"),
        ("jar", "Java Archive"),
        ("war", "Web Archive"),
        ("ear", "Enterprise Archive"),
        ("exe", "Windows Executable"),
        ("msi", "Windows Installer"),
        ("sh", "Shell Script"),
        ("bat", "Batch Script"),
        ("cmd", "Command Script"),
        ("py", "Python Script"),
        ("rb", "Ruby Script"),
        ("pl", "Perl Script"),
        ("php", "PHP Script"),
        ("html", "HTML Document"),
        ("htm", "HTML Document"),
        ("xhtml", "XHTML Document"),
        ("css", "CSS Stylesheet"),
        ("js", "JavaScript File"),
        ("ts", "TypeScript File"),
        ("jsx", "JavaScript XML"),
        ("tsx", "TypeScript XML"),
        ("json", "JSON File"),
        ("xml", "XML Document"),
        ("yaml", "YAML Document"),
        ("yml", "YAML Document"),
        ("toml", "TOML Config"),
        ("ini", "INI Config"),
        ("cfg", "Configuration File"),
        ("conf", "Configuration File"),
        ("log", "Log File"),
        ("md", "Markdown Document"),
        ("txt", "Text File"),
        ("csv", "CSV File"),
        ("tsv", "TSV File"),
        ("pdf", "PDF Document"),
        ("doc", "Word Document"),
        ("docx", "Word Document"),
        ("xls", "Excel Spreadsheet"),
        ("xlsx", "Excel Spreadsheet"),
        ("ppt", "PowerPoint Presentation"),
        ("pptx", "PowerPoint Presentation"),
        ("odt", "OpenDocument Text"),
        ("ods", "OpenDocument Spreadsheet"),
        ("odp", "OpenDocument Presentation"),
        ("jpg", "JPEG Image"),
        ("jpeg", "JPEG Image"),
        ("png", "PNG Image"),
        ("gif", "GIF Image"),
        ("bmp", "Bitmap Image"),
        ("tiff", "TIFF Image"),
        ("ico", "Icon Image"),
        ("svg", "SVG Image"),
        ("mp3", "MP3 Audio"),
        ("wav", "WAV Audio"),
        ("flac", "FLAC Audio"),
        ("ogg", "OGG Audio"),
        ("aac", "AAC Audio"),
        ("m4a", "M4A Audio"),
        ("wma", "WMA Audio"),
        ("mp4", "MP4 Video"),
        ("m4v", "M4V Video"),
        ("mkv", "MKV Video"),
        ("avi", "AVI Video"),
        ("mov", "MOV Video"),
        ("wmv", "WMV Video"),
        ("flv", "FLV Video"),
        ("webm", "WebM Video"),
        ("vob", "DVD Video"),
        ("mpg", "MPEG Video"),
        ("mpeg", "MPEG Video"),
        ("iso", "ISO Disk Image"),
        ("dmg", "MacOS Disk Image"),
        ("vdi", "VirtualBox Disk Image"),
        ("vmdk", "VMware Disk Image"),
        ("qcow2", "QEMU Copy-On-Write Disk Image"),
        ("qcow", "QEMU Copy-On-Write Disk Image"),
        ("ova", "Virtual Appliance"),
        ("ovf", "Open Virtualization Format"),
        ("img", "Disk Image"),
        ("dd", "Disk Dump Image"),
        ("vhd", "Virtual Hard Disk"),
        ("vhdx", "Virtual Hard Disk"),
        ("xpi", "Mozilla Add-on"),
        ("crx", "Chrome Extension"),
        ("oxt", "OpenOffice Extension"),
        ("apk", "Android Package"),
        ("ipa", "iOS App Package"),
        ("deb", "Debian Package"),
        ("rpm", "Red Hat Package"),
        ("flatpak", "Flatpak Package"),
        ("mcworld", "Minecraft World"),
        ("mcpack", "Minecraft Resource Pack"),
        ("mcaddon", "Minecraft Add-On"),
        ("mctemplate", "Minecraft Template"),
        ("mclevel", "Minecraft Level"),
        ("schematic", "Minecraft Schematic"),
        ("dat", "Minecraft Data File"),
        ("ldb", "Minecraft LevelDB Database File"),
        ("mca", "Minecraft Anvil Data"),
        ("mcr", "Minecraft Region Data"),
        ("nbt", "Minecraft Named Binary Tag"),
        ("mcfunction", "Minecraft Function File"),
        ("mcmeta", "Minecraft Metadata File"),
        ("properties", "Minecraft Properties File"),
    ]
}

/// The table as a value that can be walked.
pub fn extension_label_table() -> (table: Vec<(&'static str, &'static str)>)
    ensures
        table@ == extension_labels(),
{
    let table = vec![
        ("zip", "Zip Archive"),
        ("tar", "Tar Archive"),
        ("tar.gz", "Tar GZip Archive"),
        ("tar.bz2", "Tar BZip2 Archive"),
        ("tar.xz", "Tar XZ Archive"),
        ("7z", "7-Zip Archive"),
        ("rar", "RAR Archive"),
        ("jar", "Java Archive"),
        ("war", "Web Archive"),
        ("ear", "Enterprise Archive"),
        ("exe", "Windows Executable"),
        ("msi", "Windows Installer"),
        ("sh", "Shell Script"),
        ("bat", "Batch Script"),
        ("cmd", "Command Script"),
        ("py", "Python Script"),
        ("rb", "Ruby Script"),
        ("pl", "Perl Script"),
        ("php", "PHP Script"),
        ("html", "HTML Document"),
        ("htm", "HTML Document"),
        ("xhtml", "XHTML Document"),
        ("css", "CSS Stylesheet"),
        ("js", "JavaScript File"),
        ("ts", "TypeScript File"),
        ("jsx", "JavaScript XML"),
        ("tsx", "TypeScript XML"),
        ("json", "JSON File"),
        ("xml", "XML Document"),
        ("yaml", "YAML Document"),
        ("yml", "YAML Document"),
        ("toml", "TOML Config"),
        ("ini", "INI Config"),
        ("cfg", "Configuration File"),
        ("conf", "Configuration File"),
        ("log", "Log File"),
        ("md", "Markdown Document"),
        ("txt", "Text File"),
        ("csv", "CSV File"),
        ("tsv", "TSV File"),
        ("pdf", "PDF Document"),
        ("doc", "Word Document"),
        ("docx", "Word Document"),
        ("xls", "Excel Spreadsheet"),
        ("xlsx", "Excel Spreadsheet"),
        ("ppt", "PowerPoint Presentation"),
        ("pptx", "PowerPoint Presentation"),
        ("odt", "OpenDocument Text"),
        ("ods", "OpenDocument Spreadsheet"),
        ("odp", "OpenDocument Presentation"),
        ("jpg", "JPEG Image"),
        ("jpeg", "JPEG Image"),
        ("png", "PNG Image"),
        ("gif", "GIF Image"),
        ("bmp", "Bitmap Image"),
        ("tiff", "TIFF Image"),
        ("ico", "Icon Image"),
        ("svg", "SVG Image"),
        ("mp3", "MP3 Audio"),
        ("wav", "WAV Audio"),
        ("flac", "FLAC Audio"),
        ("ogg", "OGG Audio"),
        ("aac", "AAC Audio"),
        ("m4a", "M4A Audio"),
        ("wma", "WMA Audio"),
        ("mp4", "MP4 Video"),
        ("m4v", "M4V Video"),
        ("mkv", "MKV Video"),
        ("avi", "AVI Video"),
        ("mov", "MOV Video"),
        ("wmv", "WMV Video"),
        ("flv", "FLV Video"),
        ("webm", "WebM Video"),
        ("vob", "DVD Video"),
        ("mpg", "MPEG Video"),
        ("mpeg", "MPEG Video"),
        ("iso", "ISO Disk Image"),
        ("dmg", "MacOS Disk Image"),
        ("vdi", "VirtualBox Disk Image"),
        ("vmdk", "VMware Disk Image"),
        ("qcow2", "QEMU Copy-On-Write Disk Image"),
        ("qcow", "QEMU Copy-On-Write Disk Image"),
        ("ova", "Virtual Appliance"),
        ("ovf", "Open Virtualization Format"),
        ("img", "Disk Image"),
        ("dd", "Disk Dump Image"),
        ("vhd", "Virtual Hard Disk"),
        ("vhdx", "Virtual Hard Disk"),
        ("xpi", "Mozilla Add-on"),
        ("crx", "Chrome Extension"),
        ("oxt", "OpenOffice Extension"),
        ("apk", "Android Package"),
        ("ipa", "iOS App Package"),
        ("deb", "Debian Package"),
        ("rpm", "Red Hat Package"),
        ("flatpak", "Flatpak Package"),
        ("mcworld", "Minecraft World"),
        ("mcpack", "Minecraft Resource Pack"),
        ("mcaddon", "Minecraft Add-On"),
        ("mctemplate", "Minecraft Template"),
        ("mclevel", "Minecraft Level"),
        ("schematic", "Minecraft Schematic"),
        ("dat", "Minecraft Data File"),
        ("ldb", "Minecraft LevelDB Database File"),
        ("mca", "Minecraft Anvil Data"),
        ("mcr", "Minecraft Region Data"),
        ("nbt", "Minecraft Named Binary Tag"),
        ("mcfunction", "Minecraft Function File"),
        ("mcmeta", "Minecraft Metadata File"),
        ("properties", "Minecraft Properties File"),
    ];
    assert(table@ =~= extension_labels());
    table
}

/// No extension is listed twice, and none of them is empty.
pub proof fn lemma_extensions_distinct()
    ensures
        forall|i: int, j: int|
            0 <= i < j < extension_labels().len() ==> extension_labels()[i].0@
                != extension_labels()[j].0@,
        forall|i: int|
            0 <= i < extension_labels().len() ==> (#[trigger] extension_labels()[i]).0@.len() > 0,
{
    reveal_strlit("zip");
    assert("zip"@ =~= seq!['z', 'i', 'p']);
    reveal_strlit("tar");
    assert("tar"@ =~= seq!['t', 'a', 'r']);
    reveal_strlit("tar.gz");
    assert("tar.gz"@ =~= seq!['t', 'a', 'r', '.', 'g', 'z']);
    reveal_strlit("tar.bz2");
    assert("tar.bz2"@ =~= seq!['t', 'a', 'r', '.', 'b', 'z', '2']);
    reveal_strlit("tar.xz");
    assert("tar.xz"@ =~= seq!['t', 'a', 'r', '.', 'x', 'z']);
    reveal_strlit("7z");
    assert("7z"@ =~= seq!['7', 'z']);
    reveal_strlit("rar");
    assert("rar"@ =~= seq!['r', 'a', 'r']);
    reveal_strlit("jar");
    assert("jar"@ =~= seq!['j', 'a', 'r']);
    reveal_strlit("war");
    assert("war"@ =~= seq!['w', 'a', 'r']);
    reveal_strlit("ear");
    assert("ear"@ =~= seq!['e', 'a', 'r']);
    reveal_strlit("exe");
    assert("exe"@ =~= seq!['e', 'x', 'e']);
    reveal_strlit("msi");
    assert("msi"@ =~= seq!['m', 's', 'i']);
    reveal_strlit("sh");
    assert("sh"@ =~= seq!['s', 'h']);
    reveal_strlit("bat");
    assert("bat"@ =~= seq!['b', 'a', 't']);
    reveal_strlit("cmd");
    assert("cmd"@ =~= seq!['c', 'm', 'd']);
    reveal_strlit("py");
    assert("py"@ =~= seq!['p', 'y']);
    reveal_strlit("rb");
    assert("rb"@ =~= seq!['r', 'b']);
    reveal_strlit("pl");
    assert("pl"@ =~= seq!['p', 'l']);
    reveal_strlit("php");
    assert("php"@ =~= seq!['p', 'h', 'p']);
    reveal_strlit("html");
    assert("html"@ =~= seq!['h', 't', 'm', 'l']);
    reveal_strlit("htm");
    assert("htm"@ =~= seq!['h', 't', 'm']);
    reveal_strlit("xhtml");
    assert("xhtml"@ =~= seq!['x', 'h', 't', 'm', 'l']);
    reveal_strlit("css");
    assert("css"@ =~= seq!['c', 's', 's']);
    reveal_strlit("js");
    assert("js"@ =~= seq!['j', 's']);
    reveal_strlit("ts");
    assert("ts"@ =~= seq!['t', 's']);
    reveal_strlit("jsx");
    assert("jsx"@ =~= seq!['j', 's', 'x']);
    reveal_strlit("tsx");
    assert("tsx"@ =~= seq!['t', 's', 'x']);
    reveal_strlit("json");
    assert("json"@ =~= seq!['j', 's', 'o', 'n']);
    reveal_strlit("xml");
    assert("xml"@ =~= seq!['x', 'm', 'l']);
    reveal_strlit("yaml");
    assert("yaml"@ =~= seq!['y', 'a', 'm', 'l']);
    reveal_strlit("yml");
    assert("yml"@ =~= seq!['y', 'm', 'l']);
    reveal_strlit("toml");
    assert("toml"@ =~= seq!['t', 'o', 'm', 'l']);
    reveal_strlit("ini");
    assert("ini"@ =~= seq!['i', 'n', 'i']);
    reveal_strlit("cfg");
    assert("cfg"@ =~= seq!['c', 'f', 'g']);
    reveal_strlit("conf");
    assert("conf"@ =~= seq!['c', 'o', 'n', 'f']);
    reveal_strlit("log");
    assert("log"@ =~= seq!['l', 'o', 'g']);
    reveal_strlit("md");
    assert("md"@ =~= seq!['m', 'd']);
    reveal_strlit("txt");
    assert("txt"@ =~= seq!['t', 'x', 't']);
    reveal_strlit("csv");
    assert("csv"@ =~= seq!['c', 's', 'v']);
    reveal_strlit("tsv");
    assert("tsv"@ =~= seq!['t', 's', 'v']);
    reveal_strlit("pdf");
    assert("pdf"@ =~= seq!['p', 'd', 'f']);
    reveal_strlit("doc");
    assert("doc"@ =~= seq!['d', 'o', 'c']);
    reveal_strlit("docx");
    assert("docx"@ =~= seq!['d', 'o', 'c', 'x']);
    reveal_strlit("xls");
    assert("xls"@ =~= seq!['x', 'l', 's']);
    reveal_strlit("xlsx");
    assert("xlsx"@ =~= seq!['x', 'l', 's', 'x']);
    reveal_strlit("ppt");
    assert("ppt"@ =~= seq!['p', 'p', 't']);
    reveal_strlit("pptx");
    assert("pptx"@ =~= seq!['p', 'p', 't', 'x']);
    reveal_strlit("odt");
    assert("odt"@ =~= seq!['o', 'd', 't']);
    reveal_strlit("ods");
    assert("ods"@ =~= seq!['o', 'd', 's']);
    reveal_strlit("odp");
    assert("odp"@ =~= seq!['o', 'd', 'p']);
    reveal_strlit("jpg");
    assert("jpg"@ =~= seq!['j', 'p', 'g']);
    reveal_strlit("jpeg");
    assert("jpeg"@ =~= seq!['j', 'p', 'e', 'g']);
    reveal_strlit("png");
    assert("png"@ =~= seq!['p', 'n', 'g']);
    reveal_strlit("gif");
    assert("gif"@ =~= seq!['g', 'i', 'f']);
    reveal_strlit("bmp");
    assert("bmp"@ =~= seq!['b', 'm', 'p']);
    reveal_strlit("tiff");
    assert("tiff"@ =~= seq!['t', 'i', 'f', 'f']);
    reveal_strlit("ico");
    assert("ico"@ =~= seq!['i', 'c', 'o']);
    reveal_strlit("svg");
    assert("svg"@ =~= seq!['s', 'v', 'g']);
    reveal_strlit("mp3");
    assert("mp3"@ =~= seq!['m', 'p', '3']);
    reveal_strlit("wav");
    assert("wav"@ =~= seq!['w', 'a', 'v']);
    reveal_strlit("flac");
    assert("flac"@ =~= seq!['f', 'l', 'a', 'c']);
    reveal_strlit("ogg");
    assert("ogg"@ =~= seq!['o', 'g', 'g']);
    reveal_strlit("aac");
    assert("aac"@ =~= seq!['a', 'a', 'c']);
    reveal_strlit("m4a");
    assert("m4a"@ =~= seq!['m', '4', 'a']);
    reveal_strlit("wma");
    assert("wma"@ =~= seq!['w', 'm', 'a']);
    reveal_strlit("mp4");
    assert("mp4"@ =~= seq!['m', 'p', '4']);
    reveal_strlit("m4v");
    assert("m4v"@ =~= seq!['m', '4', 'v']);
    reveal_strlit("mkv");
    assert("mkv"@ =~= seq!['m', 'k', 'v']);
    reveal_strlit("avi");
    assert("avi"@ =~= seq!['a', 'v', 'i']);
    reveal_strlit("mov");
    assert("mov"@ =~= seq!['m', 'o', 'v']);
    reveal_strlit("wmv");
    assert("wmv"@ =~= seq!['w', 'm', 'v']);
    reveal_strlit("flv");
    assert("flv"@ =~= seq!['f', 'l', 'v']);
    reveal_strlit("webm");
    assert("webm"@ =~= seq!['w', 'e', 'b', 'm']);
    reveal_strlit("vob");
    assert("vob"@ =~= seq!['v', 'o', 'b']);
    reveal_strlit("mpg");
    assert("mpg"@ =~= seq!['m', 'p', 'g']);
    reveal_strlit("mpeg");
    assert("mpeg"@ =~= seq!['m', 'p', 'e', 'g']);
    reveal_strlit("iso");
    assert("iso"@ =~= seq!['i', 's', 'o']);
    reveal_strlit("dmg");
    assert("dmg"@ =~= seq!['d', 'm', 'g']);
    reveal_strlit("vdi");
    assert("vdi"@ =~= seq!['v', 'd', 'i']);
    reveal_strlit("vmdk");
    assert("vmdk"@ =~= seq!['v', 'm', 'd', 'k']);
    reveal_strlit("qcow2");
    assert("qcow2"@ =~= seq!['q', 'c', 'o', 'w', '2']);
    reveal_strlit("qcow");
    assert("qcow"@ =~= seq!['q', 'c', 'o', 'w']);
    reveal_strlit("ova");
    assert("ova"@ =~= seq!['o', 'v', 'a']);
    reveal_strlit("ovf");
    assert("ovf"@ =~= seq!['o', 'v', 'f']);
    reveal_strlit("img");
    assert("img"@ =~= seq!['i', 'm', 'g']);
    reveal_strlit("dd");
    assert("dd"@ =~= seq!['d', 'd']);
    reveal_strlit("vhd");
    assert("vhd"@ =~= seq!['v', 'h', 'd']);
    reveal_strlit("vhdx");
    assert("vhdx"@ =~= seq!['v', 'h', 'd', 'x']);
    reveal_strlit("xpi");
    assert("xpi"@ =~= seq!['x', 'p', 'i']);
    reveal_strlit("crx");
    assert("crx"@ =~= seq!['c', 'r', 'x']);
    reveal_strlit("oxt");
    assert("oxt"@ =~= seq!['o', 'x', 't']);
    reveal_strlit("apk");
    assert("apk"@ =~= seq!['a', 'p', 'k']);
    reveal_strlit("ipa");
    assert("ipa"@ =~= seq!['i', 'p', 'a']);
    reveal_strlit("deb");
    assert("deb"@ =~= seq!['d', 'e', 'b']);
    reveal_strlit("rpm");
    assert("rpm"@ =~= seq!['r', 'p', 'm']);
    reveal_strlit("flatpak");
    assert("flatpak"@ =~= seq!['f', 'l', 'a', 't', 'p', 'a', 'k']);
    reveal_strlit("mcworld");
    assert("mcworld"@ =~= seq!['m', 'c', 'w', 'o', 'r', 'l', 'd']);
    reveal_strlit("mcpack");
    assert("mcpack"@ =~= seq!['m', 'c', 'p', 'a', 'c', 'k']);
    reveal_strlit("mcaddon");
    assert("mcaddon"@ =~= seq!['m', 'c', 'a', 'd', 'd', 'o', 'n']);
    reveal_strlit("mctemplate");
    assert("mctemplate"@ =~= seq!['m', 'c', 't', 'e', 'm', 'p', 'l', 'a', 't', 'e']);
    reveal_strlit("mclevel");
    assert("mclevel"@ =~= seq!['m', 'c', 'l', 'e', 'v', 'e', 'l']);
    reveal_strlit("schematic");
    assert("schematic"@ =~= seq!['s', 'c', 'h', 'e', 'm', 'a', 't', 'i', 'c']);
    reveal_strlit("dat");
    assert("dat"@ =~= seq!['d', 'a', 't']);
    reveal_strlit("ldb");
    assert("ldb"@ =~= seq!['l', 'd', 'b']);
    reveal_strlit("mca");
    assert("mca"@ =~= seq!['m', 'c', 'a']);
    reveal_strlit("mcr");
    assert("mcr"@ =~= seq!['m', 'c', 'r']);
    reveal_strlit("nbt");
    assert("nbt"@ =~= seq!['n', 'b', 't']);
    reveal_strlit("mcfunction");
    assert("mcfunction"@ =~= seq!['m', 'c', 'f', 'u', 'n', 'c', 't', 'i', 'o', 'n']);
    reveal_strlit("mcmeta");
    assert("mcmeta"@ =~= seq!['m', 'c', 'm', 'e', 't', 'a']);
    reveal_strlit("properties");
    assert("properties"@ =~= seq!['p', 'r', 'o', 'p', 'e', 'r', 't', 'i', 'e', 's']);
}

} // verus!
